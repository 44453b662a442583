//! The list of browsers that a URL can be handed to: how it is put together
//! from what the system reports, which entries the user has hidden, and which
//! program a browser's command line names.

use vstd::prelude::*;

verus! {

/// A browser that the system reports.
pub struct Browser {
    /// The name shown to the user; it identifies the browser.
    pub name: String,
    /// The command line that the system holds for opening it.
    pub command: String,
    /// Whether the user has taken it off the list of choices.
    pub hidden: bool,
}

/// The mathematical value of a [`Browser`].
pub struct BrowserView {
    pub name: Seq<char>,
    pub command: Seq<char>,
    pub hidden: bool,
}

impl View for Browser {
    type V = BrowserView;

    open spec fn view(&self) -> BrowserView {
        BrowserView { name: self.name@, command: self.command@, hidden: self.hidden }
    }
}

/// The values of a list of browsers.
pub open spec fn browser_views(list: Seq<Browser>) -> Seq<BrowserView> {
    Seq::new(list.len(), |i: int| list[i]@)
}

/// The texts of a list of strings.
pub open spec fn texts(list: Seq<String>) -> Seq<Seq<char>> {
    Seq::new(list.len(), |i: int| list[i]@)
}

/// A browser of this name is in the list.
pub open spec fn has_name(list: Seq<BrowserView>, name: Seq<char>) -> bool {
    exists|i: int| 0 <= i < list.len() && (#[trigger] list[i]).name == name
}

/// No two browsers of the list have the same name.
pub open spec fn names_distinct(list: Seq<BrowserView>) -> bool {
    forall|i: int, j: int|
        0 <= i < j < list.len() ==> (#[trigger] list[i]).name != (#[trigger] list[j]).name
}

/// The list with a browser reported under `name`: it is put at the end,
/// visible, unless a browser of that name is in the list already.
pub open spec fn added(list: Seq<BrowserView>, name: Seq<char>, command: Seq<char>) -> Seq<
    BrowserView,
> {
    if has_name(list, name) {
        list
    } else {
        list.push(BrowserView { name, command, hidden: false })
    }
}

/// The list with every browser hidden whose name is among `hidden`; the
/// others are as they were.
pub open spec fn marked(list: Seq<BrowserView>, hidden: Seq<Seq<char>>) -> Seq<BrowserView> {
    Seq::new(
        list.len(),
        |i: int|
            BrowserView {
                name: list[i].name,
                command: list[i].command,
                hidden: list[i].hidden || hidden.contains(list[i].name),
            },
    )
}

/// The names of the hidden browsers, in the order of the list.
pub open spec fn hidden_names_of(list: Seq<BrowserView>) -> Seq<Seq<char>>
    decreases list.len(),
{
    if list.len() == 0 {
        Seq::empty()
    } else if list.last().hidden {
        hidden_names_of(list.drop_last()).push(list.last().name)
    } else {
        hidden_names_of(list.drop_last())
    }
}

/// The positions of the browsers that are not hidden, in ascending order.
pub open spec fn visible_positions(list: Seq<BrowserView>) -> Seq<int>
    decreases list.len(),
{
    if list.len() == 0 {
        Seq::empty()
    } else if list.last().hidden {
        visible_positions(list.drop_last())
    } else {
        visible_positions(list.drop_last()).push(list.len() - 1)
    }
}

/// The list with every browser visible.
pub open spec fn all_visible(list: Seq<BrowserView>) -> Seq<BrowserView> {
    Seq::new(
        list.len(),
        |i: int| BrowserView { name: list[i].name, command: list[i].command, hidden: false },
    )
}

/// Whether a browser called `name` is in the list.
pub fn is_listed(browsers: &Vec<Browser>, name: &String) -> (found: bool)
    ensures
        found == has_name(browser_views(browsers@), name@),
{
    let mut i: usize = 0;
    while i < browsers.len()
        invariant
            i <= browsers.len(),
            forall|k: int| 0 <= k < i ==> (#[trigger] browser_views(browsers@)[k]).name != name@,
        decreases browsers.len() - i,
    {
        if browsers[i].name == *name {
            assert(browser_views(browsers@)[i as int].name == name@);
            return true;
        }
        i += 1;
    }
    false
}

/// Takes a browser that the system reports into the list, unless one of
/// that name is there already. A browser that comes in is visible.
pub fn add_browser(browsers: &mut Vec<Browser>, name: String, command: String)
    ensures
        browser_views(final(browsers)@) == added(browser_views(old(browsers)@), name@, command@),
{
    if !is_listed(browsers, &name) {
        browsers.push(Browser { name, command, hidden: false });
        assert(browser_views(browsers@) =~= browser_views(old(browsers)@).push(
            BrowserView { name: name@, command: command@, hidden: false },
        ));
    }
}

/// Whether `name` is among `names`.
pub fn is_among(names: &Vec<String>, name: &String) -> (found: bool)
    ensures
        found == texts(names@).contains(name@),
{
    let mut i: usize = 0;
    while i < names.len()
        invariant
            i <= names.len(),
            forall|k: int| 0 <= k < i ==> (#[trigger] texts(names@)[k]) != name@,
        decreases names.len() - i,
    {
        if names[i] == *name {
            assert(texts(names@)[i as int] == name@);
            return true;
        }
        i += 1;
    }
    false
}

/// Hides every browser whose name is among `hidden`.
pub fn mark_hidden(browsers: &mut Vec<Browser>, hidden: &Vec<String>)
    ensures
        browser_views(final(browsers)@) == marked(browser_views(old(browsers)@), texts(hidden@)),
{
    let mut i: usize = 0;
    while i < browsers.len()
        invariant
            i <= browsers.len(),
            browsers.len() == old(browsers).len(),
            forall|k: int|
                0 <= k < i ==> (#[trigger] browsers@[k])@ == marked(
                    browser_views(old(browsers)@),
                    texts(hidden@),
                )[k],
            forall|k: int| i <= k < browsers.len() ==> (#[trigger] browsers@[k]) == old(browsers)@[k],
        decreases browsers.len() - i,
    {
        if is_among(hidden, &browsers[i].name) {
            browsers[i].hidden = true;
        }
        i += 1;
    }
    assert(browser_views(browsers@) =~= marked(browser_views(old(browsers)@), texts(hidden@)));
}

/// The names of the hidden browsers, in the order of the list: what is kept
/// of the user's choice.
pub fn hidden_names(browsers: &Vec<Browser>) -> (names: Vec<String>)
    ensures
        texts(names@) == hidden_names_of(browser_views(browsers@)),
{
    let mut names: Vec<String> = Vec::new();
    let mut i: usize = 0;
    assert(browser_views(browsers@).take(0) =~= Seq::empty());
    while i < browsers.len()
        invariant
            i <= browsers.len(),
            texts(names@) == hidden_names_of(browser_views(browsers@).take(i as int)),
        decreases browsers.len() - i,
    {
        let ghost upto = browser_views(browsers@).take(i + 1);
        assert(upto.drop_last() =~= browser_views(browsers@).take(i as int));
        assert(upto.last() == browsers@[i as int]@);
        if browsers[i].hidden {
            let ghost before = texts(names@);
            names.push(browsers[i].name.clone());
            assert(texts(names@) =~= before.push(browsers@[i as int].name@));
        }
        i += 1;
    }
    assert(browser_views(browsers@).take(i as int) =~= browser_views(browsers@));
    names
}

/// The positions of the browsers to offer: those that are not hidden.
pub fn visible_browsers(browsers: &Vec<Browser>) -> (positions: Vec<usize>)
    ensures
        positions@.map_values(|p: usize| p as int) == visible_positions(browser_views(browsers@)),
{
    let mut positions: Vec<usize> = Vec::new();
    let mut i: usize = 0;
    assert(browser_views(browsers@).take(0) =~= Seq::empty());
    while i < browsers.len()
        invariant
            i <= browsers.len(),
            positions@.map_values(|p: usize| p as int) == visible_positions(
                browser_views(browsers@).take(i as int),
            ),
        decreases browsers.len() - i,
    {
        let ghost upto = browser_views(browsers@).take(i + 1);
        assert(upto.drop_last() =~= browser_views(browsers@).take(i as int));
        assert(upto.last() == browsers@[i as int]@);
        if !browsers[i].hidden {
            let ghost before = positions@.map_values(|p: usize| p as int);
            positions.push(i);
            assert(positions@.map_values(|p: usize| p as int) =~= before.push(i as int));
        }
        i += 1;
    }
    assert(browser_views(browsers@).take(i as int) =~= browser_views(browsers@));
    positions
}

/// A name is among the hidden names exactly where a hidden browser has it.
pub proof fn lemma_hidden_names_hold(list: Seq<BrowserView>, name: Seq<char>)
    ensures
        hidden_names_of(list).contains(name) <==> exists|j: int|
            0 <= j < list.len() && (#[trigger] list[j]).hidden && list[j].name == name,
    decreases list.len(),
{
    if list.len() > 0 {
        let init = list.drop_last();
        lemma_hidden_names_hold(init, name);
        let names = hidden_names_of(list);
        if names.contains(name) {
            let k = choose|k: int| 0 <= k < names.len() && names[k] == name;
            if list.last().hidden && k == names.len() - 1 {
                assert(list[list.len() - 1].hidden && list[list.len() - 1].name == name);
            } else {
                assert(hidden_names_of(init)[k] == name);
                let j = choose|j: int|
                    0 <= j < init.len() && (#[trigger] init[j]).hidden && init[j].name == name;
                assert(list[j].hidden && list[j].name == name);
            }
        }
        if exists|j: int| 0 <= j < list.len() && (#[trigger] list[j]).hidden && list[j].name == name {
            let j = choose|j: int|
                0 <= j < list.len() && (#[trigger] list[j]).hidden && list[j].name == name;
            if j == list.len() - 1 {
                assert(names[names.len() - 1] == name);
            } else {
                assert(init[j].hidden && init[j].name == name);
                let k = choose|k: int|
                    0 <= k < hidden_names_of(init).len() && hidden_names_of(init)[k] == name;
                assert(names[k] == name);
            }
        }
    }
}

/// Taking a reported browser into a list of distinct names leaves the names
/// distinct, and the name is in the list afterwards.
pub proof fn law_added_keeps_names_distinct(
    list: Seq<BrowserView>,
    name: Seq<char>,
    command: Seq<char>,
)
    requires
        names_distinct(list),
    ensures
        names_distinct(added(list, name, command)),
        has_name(added(list, name, command), name),
{
    let after = added(list, name, command);
    if !has_name(list, name) {
        assert(after[list.len() as int].name == name);
        assert forall|i: int, j: int| 0 <= i < j < after.len() implies (#[trigger] after[i]).name
            != (#[trigger] after[j]).name by {
            if j == list.len() {
                assert(list[i].name != name);
            } else {
                assert(list[i].name != list[j].name);
            }
        }
    }
}

/// The user's choice survives being kept as a list of names: hiding, in the
/// list with every browser visible, those whose names were kept gives the
/// list back, where no two browsers share a name.
pub proof fn law_hidden_choice_survives(list: Seq<BrowserView>)
    requires
        names_distinct(list),
    ensures
        marked(all_visible(list), hidden_names_of(list)) == list,
{
    let back = marked(all_visible(list), hidden_names_of(list));
    assert forall|i: int| 0 <= i < list.len() implies back[i] == list[i] by {
        lemma_hidden_names_hold(list, list[i].name);
        if hidden_names_of(list).contains(list[i].name) {
            let j = choose|j: int|
                0 <= j < list.len() && (#[trigger] list[j]).hidden && list[j].name == list[i].name;
            if j < i {
                assert(list[j].name != list[i].name);
            } else if i < j {
                assert(list[i].name != list[j].name);
            }
        }
    }
    assert(back =~= list);
}

/// The visible positions are the positions of the browsers that are not
/// hidden, each once, in ascending order.
pub proof fn law_visible_positions(list: Seq<BrowserView>)
    ensures
        forall|k: int|
            0 <= k < visible_positions(list).len() ==> 0 <= (#[trigger] visible_positions(
                list,
            )[k]) < list.len() && !list[visible_positions(list)[k]].hidden,
        forall|k: int, l: int|
            0 <= k < l < visible_positions(list).len() ==> (#[trigger] visible_positions(list)[k])
                < (#[trigger] visible_positions(list)[l]),
        forall|p: int|
            0 <= p < list.len() && !(#[trigger] list[p]).hidden ==> visible_positions(
                list,
            ).contains(p),
    decreases list.len(),
{
    if list.len() > 0 {
        let init = list.drop_last();
        law_visible_positions(init);
        let all = visible_positions(list);
        let before = visible_positions(init);
        assert forall|p: int| 0 <= p < list.len() && !(#[trigger] list[p]).hidden implies all.contains(
            p,
        ) by {
            if p == list.len() - 1 {
                assert(all[all.len() - 1] == p);
            } else {
                assert(!init[p].hidden);
                let k = choose|k: int| 0 <= k < before.len() && before[k] == p;
                assert(all[k] == p);
            }
        }
        assert forall|k: int| 0 <= k < all.len() implies 0 <= (#[trigger] all[k]) < list.len()
            && !list[all[k]].hidden by {
            if k < before.len() {
                assert(before[k] == all[k]);
                assert(!init[before[k]].hidden);
            }
        }
        assert forall|k: int, l: int| 0 <= k < l < all.len() implies (#[trigger] all[k]) < (
        #[trigger] all[l]) by {
            assert(before[k] == all[k]);
            if l < before.len() {
                assert(before[l] == all[l]);
            }
        }
    }
}

} // verus!
