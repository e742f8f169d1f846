use unwrap_rs::social_links::{
    link_item_class, social_links, SafeLink, SocialLink, SocialLinks, SocialLinksMsg,
};

fn link(urls: [&str; 3], icons: [&str; 3], labels: [&str; 3], active: [bool; 3]) -> SafeLink {
    SafeLink {
        urls: urls.map(String::from),
        icon_paths: icons.map(String::from),
        labels: labels.map(String::from),
        active,
    }
}

#[test]
fn catalogue_lists_three_links() {
    let links = social_links();
    assert_eq!(links.len(), 3);
    assert_eq!(links[0].url, "https://github.com/coleleavitt");
    assert_eq!(links[0].icon_path, "icons/github-original.svg");
    assert_eq!(links[0].label, "GitHub");
    assert_eq!(links[1].url, "https://www.linkedin.com/in/coleleavitt/");
    assert_eq!(links[1].icon_path, "icons/linkedin.svg");
    assert_eq!(links[1].label, "LinkedIn");
    assert_eq!(links[2].url, "mailto:cole@unwrap.rs");
    assert_eq!(links[2].icon_path, "icons/envelope-fill.svg");
    assert_eq!(links[2].label, "Email");
}

#[test]
fn social_link_new_copies_fields() {
    let l = SocialLink::new("u", "i", "l");
    assert_eq!((l.url.as_str(), l.icon_path.as_str(), l.label.as_str()), ("u", "i", "l"));
}

#[test]
fn hovered_link_gets_the_hover_class() {
    assert_eq!(link_item_class(Some(1), 1), "social-link-item hovered");
    assert_eq!(link_item_class(Some(1), 2), "social-link-item");
    assert_eq!(link_item_class(None, 0), "social-link-item");
}

#[test]
fn new_safe_link_reads_back_its_fields() {
    let l = SafeLink::new("https://a", "icon.svg", "A");
    assert_eq!(l.url(), "https://a");
    assert_eq!(l.icon_path(), "icon.svg");
    assert_eq!(l.label(), "A");
    assert!(l.is_active());
}

#[test]
fn url_vote_majority_wins() {
    let l = link(["x", "good", "good"], ["i"; 3], ["l"; 3], [true; 3]);
    assert_eq!(l.url(), "good");
    let l = link(["good", "x", "good"], ["i"; 3], ["l"; 3], [true; 3]);
    assert_eq!(l.url(), "good");
    let l = link(["good", "good", "x"], ["i"; 3], ["l"; 3], [true; 3]);
    assert_eq!(l.url(), "good");
}

#[test]
fn url_vote_skips_empty_copies() {
    let l = link(["", "b", "b"], ["i"; 3], ["l"; 3], [true; 3]);
    assert_eq!(l.url(), "b");
    let l = link(["a", "", "b"], ["i"; 3], ["l"; 3], [true; 3]);
    assert_eq!(l.url(), "a");
    let l = link(["", "", "c"], ["i"; 3], ["l"; 3], [true; 3]);
    assert_eq!(l.url(), "c");
}

#[test]
fn url_without_agreement_takes_the_first() {
    let l = link(["a", "b", "c"], ["i"; 3], ["l"; 3], [true; 3]);
    assert_eq!(l.url(), "a");
}

#[test]
fn url_with_no_copies_is_hash() {
    let l = link(["", "", ""], ["i"; 3], ["l"; 3], [true; 3]);
    assert_eq!(l.url(), "#");
}

#[test]
fn icon_and_label_are_read_by_vote() {
    let l = link(["u"; 3], ["x", "good", "good"], ["lab", "other", "lab"], [true; 3]);
    assert_eq!(l.icon_path(), "good");
    assert_eq!(l.label(), "lab");
    let l = link(["u"; 3], ["", "icon", "other"], ["", "lab", "other"], [true; 3]);
    assert_eq!(l.icon_path(), "icon");
    assert_eq!(l.label(), "lab");
}

#[test]
fn icon_and_label_fallbacks() {
    let l = link(["u"; 3], ["", "", ""], ["", "", ""], [true; 3]);
    assert_eq!(
        l.icon_path(),
        "https://cdn.jsdelivr.net/gh/devicons/devicon/icons/github/github-original.svg"
    );
    assert_eq!(l.label(), "Link");
}

#[test]
fn link_is_active_by_majority() {
    assert!(link(["u"; 3], ["i"; 3], ["l"; 3], [true, false, true]).is_active());
    assert!(!link(["u"; 3], ["i"; 3], ["l"; 3], [false, false, true]).is_active());
}

#[test]
fn create_builds_three_unlabelled_links() {
    let s = SocialLinks::create();
    assert_eq!(s.links.len(), 3);
    assert_eq!(s.hover_state, None);
    assert_eq!(s.links[0].url(), "https://github.com/coleleavitt");
    assert_eq!(s.links[1].url(), "https://www.linkedin.com/in/cole-leavitt/");
    assert_eq!(s.links[2].url(), "mailto:cole@unwrap.rs");
    assert_eq!(
        s.links[2].icon_path(),
        "https://cdn.jsdelivr.net/npm/bootstrap-icons@1.10.5/icons/envelope-fill.svg"
    );
    for l in s.links.iter() {
        assert_eq!(l.label(), "Link");
        assert!(l.is_active());
    }
}

#[test]
fn hover_messages_set_and_clear() {
    let mut s = SocialLinks::create();
    assert!(s.update(SocialLinksMsg::SetHover(2)));
    assert_eq!(s.hover_state, Some(2));
    assert!(s.update(SocialLinksMsg::ClearHover));
    assert_eq!(s.hover_state, None);
}

#[test]
fn verify_links_heals_disagreeing_urls() {
    let mut s = SocialLinks {
        links: vec![
            link(["bad", "bad", "good"], ["i"; 3], ["l"; 3], [true; 3]),
            link(["", "ok", "ok"], ["i"; 3], ["l"; 3], [true; 3]),
            link(["a", "b", "c"], ["i"; 3], ["l"; 3], [true; 3]),
            link(["same"; 3], ["i"; 3], ["l"; 3], [true; 3]),
        ],
        hover_state: Some(1),
    };
    let before: Vec<String> = s.links.iter().map(|l| l.url()).collect();
    assert!(s.update(SocialLinksMsg::VerifyLinks));
    assert_eq!(s.links[0].urls, ["bad", "bad", "bad"]);
    assert_eq!(s.links[1].urls, ["ok", "ok", "ok"]);
    assert_eq!(s.links[2].urls, ["a", "b", "c"]);
    assert_eq!(s.links[3].urls, ["same", "same", "same"]);
    assert_eq!(s.hover_state, Some(1));
    let after: Vec<String> = s.links.iter().map(|l| l.url()).collect();
    assert_eq!(before, after);
}
