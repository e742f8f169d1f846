//! The small styled widgets of the page: the title and subtitle, which can be
//! "unwrapped" into a larger form, and the logo.
use vstd::prelude::*;

verus! {

/// The character sequences of a list of strings.
pub open spec fn texts(v: Seq<String>) -> Seq<Seq<char>> {
    v.map_values(|s: String| s@)
}

/// The classes that every unwrappable widget toggles: three always on, and
/// `scale-110` while unwrapped.
pub open spec fn toggled_classes(unwrapped: bool) -> Seq<(Seq<char>, bool)> {
    seq![
        ("transition-all"@, true),
        ("duration-300"@, true),
        ("transform"@, true),
        ("scale-110"@, unwrapped),
    ]
}

/// The classes a widget is drawn with: its base classes, then each toggled
/// class that is on, in order.
pub open spec fn class_list(base: Seq<Seq<char>>, unwrapped: bool) -> Seq<Seq<char>> {
    base + seq!["transition-all"@, "duration-300"@, "transform"@] + (if unwrapped {
        seq!["scale-110"@]
    } else {
        seq![]
    })
}

fn two_classes(a: &str, b: &str) -> (v: Vec<String>)
    ensures
        texts(v@) == seq![a@, b@],
{
    let mut v: Vec<String> = Vec::new();
    v.push(String::from_str(a));
    v.push(String::from_str(b));
    assert(texts(v@) =~= seq![a@, b@]);
    v
}

fn conditional_class_list(unwrapped: bool) -> (v: Vec<(String, bool)>)
    ensures
        v@.len() == 4,
        forall|i: int| 0 <= i < 4 ==> (#[trigger] v@[i]).0@ == toggled_classes(unwrapped)[i].0 && v@[i].1
            == toggled_classes(unwrapped)[i].1,
{
    proof {
        reveal_strlit("transition-all");
        reveal_strlit("duration-300");
        reveal_strlit("transform");
        reveal_strlit("scale-110");
    }
    let mut v: Vec<(String, bool)> = Vec::new();
    v.push((String::from_str("transition-all"), true));
    v.push((String::from_str("duration-300"), true));
    v.push((String::from_str("transform"), true));
    v.push((String::from_str("scale-110"), unwrapped));
    v
}

/// The names of the classes that are on, in order.
pub open spec fn enabled_classes(c: Seq<(Seq<char>, bool)>) -> Seq<Seq<char>>
    decreases c.len(),
{
    if c.len() == 0 {
        seq![]
    } else if c.last().1 {
        enabled_classes(c.drop_last()).push(c.last().0)
    } else {
        enabled_classes(c.drop_last())
    }
}

fn combined_classes(base: Vec<String>, unwrapped: bool) -> (v: Vec<String>)
    ensures
        texts(v@) == class_list(texts(base@), unwrapped),
{
    let conditional = conditional_class_list(unwrapped);
    let mut v = base;
    let ghost start = v@;
    let ghost toggled = toggled_classes(unwrapped);
    let mut i: usize = 0;
    while i < conditional.len()
        invariant
            conditional@.len() == 4,
            toggled == toggled_classes(unwrapped),
            forall|j: int|
                0 <= j < 4 ==> (#[trigger] conditional@[j]).0@ == toggled[j].0
                    && conditional@[j].1 == toggled[j].1,
            i <= 4,
            texts(v@) == texts(start) + enabled_classes(toggled.take(i as int)),
        decreases 4 - i,
    {
        assert(toggled.take(i + 1).drop_last() =~= toggled.take(i as int));
        assert(toggled.take(i + 1).last() == toggled[i as int]);
        let ghost before = v@;
        if conditional[i].1 {
            v.push(conditional[i].0.clone());
            assert(texts(v@) =~= texts(before).push(toggled[i as int].0));
        }
        assert(texts(v@) =~= texts(start) + enabled_classes(toggled.take(i + 1)));
        i = i + 1;
    }
    assert(toggled.take(4) =~= toggled);
    assert(enabled_classes(toggled) =~= seq!["transition-all"@, "duration-300"@, "transform"@] + (
    if unwrapped {
        seq!["scale-110"@]
    } else {
        seq![]
    })) by {
        reveal_with_fuel(enabled_classes, 5);
    }
    assert(texts(v@) =~= class_list(texts(start), unwrapped));
    v
}

/// The page title; unwrapping shows a larger greeting.
pub struct Title {
    pub unwrapped: bool,
}

/// The subtitle; unwrapping shows extra detail.
pub struct Subtitle {
    pub unwrapped: bool,
}

/// The logo image.
pub struct Logo;

impl Title {
    /// A title that is not unwrapped.
    pub fn create_component() -> (t: Title)
        ensures
            !t.unwrapped,
    {
        Title { unwrapped: false }
    }

    pub fn base_classes(&self) -> (v: Vec<String>)
        ensures
            texts(v@) == seq!["text-3xl"@, "font-bold"@],
    {
        two_classes("text-3xl", "font-bold")
    }

    pub fn conditional_classes(&self) -> (v: Vec<(String, bool)>)
        ensures
            v@.len() == 4,
            forall|i: int| 0 <= i < 4 ==> (#[trigger] v@[i]).0@ == toggled_classes(self.unwrapped)[i].0
                && v@[i].1 == toggled_classes(self.unwrapped)[i].1,
    {
        conditional_class_list(self.unwrapped)
    }

    /// The base classes followed by the toggled classes that are on.
    pub fn classes(&self) -> (v: Vec<String>)
        ensures
            texts(v@) == class_list(seq!["text-3xl"@, "font-bold"@], self.unwrapped),
    {
        combined_classes(self.base_classes(), self.unwrapped)
    }

    pub fn is_unwrapped(&self) -> (b: bool)
        ensures
            b == self.unwrapped,
    {
        self.unwrapped
    }

    /// Sets the unwrapped state; the title is always drawn again.
    pub fn set_unwrapped(&mut self, unwrapped: bool) -> (redraw: bool)
        ensures
            final(self).unwrapped == unwrapped,
            redraw,
    {
        self.unwrapped = unwrapped;
        true
    }
}

impl Subtitle {
    /// A subtitle that is not unwrapped.
    pub fn create_component() -> (t: Subtitle)
        ensures
            !t.unwrapped,
    {
        Subtitle { unwrapped: false }
    }

    pub fn base_classes(&self) -> (v: Vec<String>)
        ensures
            texts(v@) == seq!["block"@, "-mt-4"@],
    {
        two_classes("block", "-mt-4")
    }

    pub fn conditional_classes(&self) -> (v: Vec<(String, bool)>)
        ensures
            v@.len() == 4,
            forall|i: int| 0 <= i < 4 ==> (#[trigger] v@[i]).0@ == toggled_classes(self.unwrapped)[i].0
                && v@[i].1 == toggled_classes(self.unwrapped)[i].1,
    {
        conditional_class_list(self.unwrapped)
    }

    /// The base classes followed by the toggled classes that are on.
    pub fn classes(&self) -> (v: Vec<String>)
        ensures
            texts(v@) == class_list(seq!["block"@, "-mt-4"@], self.unwrapped),
    {
        combined_classes(self.base_classes(), self.unwrapped)
    }

    pub fn is_unwrapped(&self) -> (b: bool)
        ensures
            b == self.unwrapped,
    {
        self.unwrapped
    }

    /// Sets the unwrapped state; the subtitle is always drawn again.
    pub fn set_unwrapped(&mut self, unwrapped: bool) -> (redraw: bool)
        ensures
            final(self).unwrapped == unwrapped,
            redraw,
    {
        self.unwrapped = unwrapped;
        true
    }
}

impl Logo {
    pub fn create_component() -> Logo {
        Logo
    }

    pub fn base_classes(&self) -> (v: Vec<String>)
        ensures
            texts(v@) == seq!["h-80"@, "mx-auto"@],
    {
        two_classes("h-80", "mx-auto")
    }
}

/// Unwrapping adds exactly the `scale-110` class at the end, and wrapping
/// again takes it away.
pub proof fn lemma_unwrapping_adds_the_scale_class(base: Seq<Seq<char>>)
    ensures
        class_list(base, true) == class_list(base, false).push("scale-110"@),
        class_list(base, false).len() == base.len() + 3,
{
    assert(class_list(base, true) =~= class_list(base, false).push("scale-110"@));
}

} // verus!
