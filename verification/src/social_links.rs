//! The social links of the page.
//!
//! `SocialLink` is the plain catalogue entry shown by the page and served by
//! the backend. `SafeLink` keeps each field in three copies and reads them by
//! vote; `SocialLinks` holds such links together with the hover state, and
//! periodically heals links whose URL copies disagree.
use vstd::prelude::*;

verus! {

/// A social link: where it points, its icon and its label.
pub struct SocialLink {
    pub url: String,
    pub icon_path: String,
    pub label: String,
}

impl SocialLink {
    pub fn new(url: &str, icon_path: &str, label: &str) -> (l: SocialLink)
        ensures
            l.url@ == url@,
            l.icon_path@ == icon_path@,
            l.label@ == label@,
    {
        SocialLink {
            url: String::from_str(url),
            icon_path: String::from_str(icon_path),
            label: String::from_str(label),
        }
    }
}

/// The catalogue of links: GitHub, LinkedIn and e-mail, in that order.
pub fn social_links() -> (links: Vec<SocialLink>)
    ensures
        links.len() == 3,
        links[0].url@ == "https://github.com/coleleavitt"@,
        links[0].icon_path@ == "icons/github-original.svg"@,
        links[0].label@ == "GitHub"@,
        links[1].url@ == "https://www.linkedin.com/in/coleleavitt/"@,
        links[1].icon_path@ == "icons/linkedin.svg"@,
        links[1].label@ == "LinkedIn"@,
        links[2].url@ == "mailto:cole@unwrap.rs"@,
        links[2].icon_path@ == "icons/envelope-fill.svg"@,
        links[2].label@ == "Email"@,
{
    let mut links: Vec<SocialLink> = Vec::new();
    links.push(SocialLink::new("https://github.com/coleleavitt", "icons/github-original.svg", "GitHub"));
    links.push(SocialLink::new("https://www.linkedin.com/in/coleleavitt/", "icons/linkedin.svg", "LinkedIn"));
    links.push(SocialLink::new("mailto:cole@unwrap.rs", "icons/envelope-fill.svg", "Email"));
    links
}

/// The CSS class of the link at `index`, given which link the pointer is over.
pub fn link_item_class(hover: Option<usize>, index: usize) -> (c: &'static str)
    ensures
        hover == Some(index) ==> c@ == "social-link-item hovered"@,
        hover != Some(index) ==> c@ == "social-link-item"@,
{
    proof {
        reveal_strlit("social-link-item hovered");
        reveal_strlit("social-link-item");
    }
    let hovered = match hover {
        Some(h) => h == index,
        None => false,
    };
    if hovered {
        "social-link-item hovered"
    } else {
        "social-link-item"
    }
}

/// A link whose every field is kept in three copies.
pub struct SafeLink {
    pub urls: [String; 3],
    pub icon_paths: [String; 3],
    pub labels: [String; 3],
    pub active: [bool; 3],
}

/// The positions, in order, of the copies that are not empty.
pub open spec fn present(copies: [String; 3]) -> Seq<int> {
    (if copies[0]@.len() > 0 { seq![0int] } else { seq![] }) + (if copies[1]@.len() > 0 {
        seq![1int]
    } else {
        seq![]
    }) + (if copies[2]@.len() > 0 { seq![2int] } else { seq![] })
}

/// The value read from three copies by vote. Among the non-empty copies, the
/// first two win if they agree, else the second and third, else the first and
/// third; with no agreement the first non-empty copy is used, and with none at
/// all `fallback`.
pub open spec fn voted(copies: [String; 3], fallback: Seq<char>) -> Seq<char> {
    let p = present(copies);
    if p.len() >= 2 && copies[p[0]]@ == copies[p[1]]@ {
        copies[p[0]]@
    } else if p.len() >= 3 && copies[p[1]]@ == copies[p[2]]@ {
        copies[p[1]]@
    } else if p.len() >= 3 && copies[p[0]]@ == copies[p[2]]@ {
        copies[p[0]]@
    } else if p.len() > 0 {
        copies[p[0]]@
    } else {
        fallback
    }
}

/// The URL read from three copies by vote, or `#` when all are empty.
pub open spec fn voted_url(urls: [String; 3]) -> Seq<char> {
    voted(urls, "#"@)
}

/// The icon shown when no icon copy is left.
pub open spec fn fallback_icon() -> Seq<char> {
    "https://cdn.jsdelivr.net/gh/devicons/devicon/icons/github/github-original.svg"@
}

/// The URL copies after a periodic check: when they do not all agree with the
/// first copy and the first two non-empty copies agree, all three take that value.
pub open spec fn healed_urls(urls: [String; 3]) -> [String; 3] {
    let p = present(urls);
    if urls[1]@ == urls[0]@ && urls[2]@ == urls[0]@ {
        urls
    } else if p.len() >= 2 && urls[p[0]]@ == urls[p[1]]@ {
        [urls[p[0]], urls[p[0]], urls[p[0]]]
    } else {
        urls
    }
}

/// The number of copies that say the link is active.
pub open spec fn active_votes(active: [bool; 3]) -> nat {
    (if active[0] { 1nat } else { 0nat }) + (if active[1] { 1nat } else { 0nat }) + (if active[2] {
        1nat
    } else {
        0nat
    })
}

fn present_positions(copies: &[String; 3]) -> (p: Vec<usize>)
    ensures
        p@.len() == present(*copies).len(),
        forall|k: int| 0 <= k < p@.len() ==> p@[k] as int == #[trigger] present(*copies)[k],
        forall|k: int| 0 <= k < p@.len() ==> #[trigger] p@[k] < 3,
{
    let mut p: Vec<usize> = Vec::new();
    if !copies[0].as_str().is_empty() {
        p.push(0);
    }
    if !copies[1].as_str().is_empty() {
        p.push(1);
    }
    if !copies[2].as_str().is_empty() {
        p.push(2);
    }
    p
}

fn vote(copies: &[String; 3], fallback: &str) -> (r: String)
    ensures
        r@ == voted(*copies, fallback@),
{
    let valid = present_positions(copies);
    if valid.len() >= 2 && copies[valid[0]] == copies[valid[1]] {
        copies[valid[0]].clone()
    } else if valid.len() >= 3 && copies[valid[1]] == copies[valid[2]] {
        copies[valid[1]].clone()
    } else if valid.len() >= 3 && copies[valid[0]] == copies[valid[2]] {
        copies[valid[0]].clone()
    } else if valid.len() > 0 {
        copies[valid[0]].clone()
    } else {
        String::from_str(fallback)
    }
}

impl SafeLink {
    /// A link with all three copies of each field equal, and active.
    pub fn new(url: &str, icon_path: &str, label: &str) -> (l: SafeLink)
        ensures
            forall|i: int| 0 <= i < 3 ==> (#[trigger] l.urls[i])@ == url@,
            forall|i: int| 0 <= i < 3 ==> (#[trigger] l.icon_paths[i])@ == icon_path@,
            forall|i: int| 0 <= i < 3 ==> (#[trigger] l.labels[i])@ == label@,
            l.active == [true, true, true],
    {
        SafeLink {
            urls: [String::from_str(url), String::from_str(url), String::from_str(url)],
            icon_paths: [
                String::from_str(icon_path),
                String::from_str(icon_path),
                String::from_str(icon_path),
            ],
            labels: [String::from_str(label), String::from_str(label), String::from_str(label)],
            active: [true, true, true],
        }
    }

    /// The URL, read from the three copies by vote; `#` when all are empty.
    pub fn url(&self) -> (u: String)
        ensures
            u@ == voted_url(self.urls),
    {
        proof {
            reveal_strlit("#");
        }
        vote(&self.urls, "#")
    }

    /// The icon path, read from the three copies by vote; a generic icon when
    /// all are empty.
    pub fn icon_path(&self) -> (p: String)
        ensures
            p@ == voted(self.icon_paths, fallback_icon()),
    {
        proof {
            reveal_strlit(
                "https://cdn.jsdelivr.net/gh/devicons/devicon/icons/github/github-original.svg",
            );
        }
        vote(
            &self.icon_paths,
            "https://cdn.jsdelivr.net/gh/devicons/devicon/icons/github/github-original.svg",
        )
    }

    /// The label, read from the three copies by vote; "Link" when all are empty.
    pub fn label(&self) -> (l: String)
        ensures
            l@ == voted(self.labels, "Link"@),
    {
        proof {
            reveal_strlit("Link");
        }
        vote(&self.labels, "Link")
    }

    /// A link is active when at least two of its three copies say so.
    pub fn is_active(&self) -> (b: bool)
        ensures
            b == (active_votes(self.active) >= 2),
    {
        let mut n: usize = 0;
        if self.active[0] {
            n = n + 1;
        }
        if self.active[1] {
            n = n + 1;
        }
        if self.active[2] {
            n = n + 1;
        }
        n >= 2
    }

    /// The same link with its URL copies healed.
    fn healed(&self) -> (l: SafeLink)
        ensures
            l.urls == healed_urls(self.urls),
            l.icon_paths == self.icon_paths,
            l.labels == self.labels,
            l.active == self.active,
    {
        let urls = if self.urls[1] == self.urls[0] && self.urls[2] == self.urls[0] {
            [self.urls[0].clone(), self.urls[1].clone(), self.urls[2].clone()]
        } else {
            let valid = present_positions(&self.urls);
            if valid.len() >= 2 && self.urls[valid[0]] == self.urls[valid[1]] {
                let correct_url = self.urls[valid[0]].clone();
                [correct_url.clone(), correct_url.clone(), correct_url]
            } else {
                [self.urls[0].clone(), self.urls[1].clone(), self.urls[2].clone()]
            }
        };
        SafeLink {
            urls,
            icon_paths: [
                self.icon_paths[0].clone(),
                self.icon_paths[1].clone(),
                self.icon_paths[2].clone(),
            ],
            labels: [self.labels[0].clone(), self.labels[1].clone(), self.labels[2].clone()],
            active: self.active,
        }
    }
}

/// The messages the link list reacts to.
pub enum SocialLinksMsg {
    /// The pointer entered the link at this position.
    SetHover(usize),
    /// The pointer left a link.
    ClearHover,
    /// Periodic check of the links' copies.
    VerifyLinks,
}

/// The link list: redundant links, and the position of the link under the pointer.
pub struct SocialLinks {
    pub links: Vec<SafeLink>,
    pub hover_state: Option<usize>,
}

impl SocialLinks {
    /// The link list of the page: GitHub, LinkedIn and e-mail, each with its
    /// icon and an empty label, nothing hovered.
    pub fn create() -> (s: SocialLinks)
        ensures
            s.links.len() == 3,
            s.hover_state is None,
            forall|i: int, j: int|
                0 <= i < 3 && 0 <= j < 3 ==> (#[trigger] s.links[i].labels[j])@.len() == 0
                    && s.links[i].active == [true, true, true],
            forall|j: int| 0 <= j < 3 ==> (#[trigger] s.links[0].urls[j])@ == "https://github.com/coleleavitt"@,
            forall|j: int| 0 <= j < 3 ==> (#[trigger] s.links[1].urls[j])@ == "https://www.linkedin.com/in/cole-leavitt/"@,
            forall|j: int| 0 <= j < 3 ==> (#[trigger] s.links[2].urls[j])@ == "mailto:cole@unwrap.rs"@,
            forall|j: int| 0 <= j < 3 ==> (#[trigger] s.links[0].icon_paths[j])@
                == "https://cdn.jsdelivr.net/gh/devicons/devicon/icons/github/github-original.svg"@,
            forall|j: int| 0 <= j < 3 ==> (#[trigger] s.links[1].icon_paths[j])@
                == "https://cdn.jsdelivr.net/gh/devicons/devicon/icons/linkedin/linkedin-original.svg"@,
            forall|j: int| 0 <= j < 3 ==> (#[trigger] s.links[2].icon_paths[j])@
                == "https://cdn.jsdelivr.net/npm/bootstrap-icons@1.10.5/icons/envelope-fill.svg"@,
    {
        proof {
            reveal_strlit("");
        }
        let mut links: Vec<SafeLink> = Vec::new();
        links.push(
            SafeLink::new(
                "https://github.com/coleleavitt",
                "https://cdn.jsdelivr.net/gh/devicons/devicon/icons/github/github-original.svg",
                "",
            ),
        );
        links.push(
            SafeLink::new(
                "https://www.linkedin.com/in/cole-leavitt/",
                "https://cdn.jsdelivr.net/gh/devicons/devicon/icons/linkedin/linkedin-original.svg",
                "",
            ),
        );
        links.push(
            SafeLink::new(
                "mailto:cole@unwrap.rs",
                "https://cdn.jsdelivr.net/npm/bootstrap-icons@1.10.5/icons/envelope-fill.svg",
                "",
            ),
        );
        SocialLinks { links, hover_state: None }
    }

    /// Handles a message; the list is always drawn again. Hover messages set
    /// or clear the hovered position; the periodic check heals the URL copies
    /// of every link and leaves everything else as it is.
    pub fn update(&mut self, msg: SocialLinksMsg) -> (redraw: bool)
        ensures
            redraw,
            msg matches SocialLinksMsg::SetHover(i) ==> final(self).hover_state == Some(i)
                && final(self).links@ == old(self).links@,
            msg is ClearHover ==> final(self).hover_state is None && final(self).links@ == old(
                self,
            ).links@,
            msg is VerifyLinks ==> {
                &&& final(self).hover_state == old(self).hover_state
                &&& final(self).links.len() == old(self).links.len()
                &&& forall|k: int|
                    0 <= k < old(self).links.len() ==> {
                        &&& (#[trigger] final(self).links[k]).urls == healed_urls(old(self).links[k].urls)
                        &&& final(self).links[k].icon_paths == old(self).links[k].icon_paths
                        &&& final(self).links[k].labels == old(self).links[k].labels
                        &&& final(self).links[k].active == old(self).links[k].active
                    }
            },
    {
        match msg {
            SocialLinksMsg::SetHover(index) => {
                self.hover_state = Some(index);
            },
            SocialLinksMsg::ClearHover => {
                self.hover_state = None;
            },
            SocialLinksMsg::VerifyLinks => {
                let mut i: usize = 0;
                while i < self.links.len()
                    invariant
                        i <= self.links.len(),
                        self.links.len() == old(self).links.len(),
                        self.hover_state == old(self).hover_state,
                        forall|k: int|
                            0 <= k < i ==> {
                                &&& (#[trigger] self.links[k]).urls == healed_urls(old(self).links[k].urls)
                                &&& self.links[k].icon_paths == old(self).links[k].icon_paths
                                &&& self.links[k].labels == old(self).links[k].labels
                                &&& self.links[k].active == old(self).links[k].active
                            },
                        forall|k: int| i <= k < self.links.len() ==> #[trigger] self.links[k] == old(self).links[k],
                    decreases self.links.len() - i,
                {
                    let healed = self.links[i].healed();
                    self.links.set(i, healed);
                    i = i + 1;
                }
            },
        }
        true
    }
}

/// Copies that all agree on a non-empty value give that value, for every field.
pub proof fn lemma_agreeing_copies_are_read_back(l: SafeLink, s: Seq<char>, t: Seq<char>, u: Seq<char>)
    requires
        s.len() > 0,
        t.len() > 0,
        u.len() > 0,
        forall|i: int| 0 <= i < 3 ==> (#[trigger] l.urls[i])@ == s,
        forall|i: int| 0 <= i < 3 ==> (#[trigger] l.icon_paths[i])@ == t,
        forall|i: int| 0 <= i < 3 ==> (#[trigger] l.labels[i])@ == u,
    ensures
        voted_url(l.urls) == s,
        voted(l.icon_paths, fallback_icon()) == t,
        voted(l.labels, "Link"@) == u,
{
    assert(l.urls[0]@ == s && l.urls[1]@ == s && l.urls[2]@ == s);
    assert(l.icon_paths[0]@ == t && l.icon_paths[1]@ == t);
    assert(l.labels[0]@ == u && l.labels[1]@ == u);
}

/// Majority vote: when two of the three copies of a field hold the same
/// non-empty value, that value is read, whatever the third copy holds.
pub proof fn lemma_majority_wins(
    copies: [String; 3],
    i: int,
    j: int,
    s: Seq<char>,
    fallback: Seq<char>,
)
    requires
        0 <= i < j < 3,
        s.len() > 0,
        copies[i]@ == s,
        copies[j]@ == s,
    ensures
        voted(copies, fallback) == s,
{
}

/// Healing never changes the URL that is read, and a second heal changes nothing.
pub proof fn lemma_healing_keeps_the_url(urls: [String; 3])
    ensures
        voted_url(healed_urls(urls)) == voted_url(urls),
        healed_urls(healed_urls(urls)) == healed_urls(urls),
{
}

/// When the first two non-empty URL copies agree, wherever they sit, healing
/// makes all three copies hold that value.
pub proof fn lemma_healing_rewrites_from_first_agreeing_pair(urls: [String; 3], i: int, j: int)
    requires
        0 <= i < j < 3,
        urls[i]@.len() > 0,
        urls[j]@ == urls[i]@,
        forall|k: int| 0 <= k < j && k != i ==> (#[trigger] urls[k]@).len() == 0,
    ensures
        healed_urls(urls)[0]@ == urls[i]@,
        healed_urls(urls)[1]@ == urls[i]@,
        healed_urls(urls)[2]@ == urls[i]@,
{
}

} // verus!
