//! Tabs in a terminal, and the keys that end it.

use vstd::prelude::*;
use vstd::string::StringExecFns;

use crate::keys::{Key, KeyPress};
use crate::parse::is_digit;
use crate::text::{decimal, decimal_text, lemma_views_push, views};
use crate::volunteer::canvas::Rect;
use crate::volunteer::layout::{
    exact_height, fixed_height, is_row_of, one_takes_the_rest, split_rows, RowSize,
};

verus! {

/// A key that ends the terminal: Q, or control and C.
pub open spec fn shuts_down(press: KeyPress) -> bool {
    press.key == Key::Char('q') || (press.key == Key::Char('c') && press.control)
}

/// Whether a key ends the terminal.
pub fn is_shutdown_key(press: KeyPress) -> (r: bool)
    ensures
        r == shuts_down(press),
{
    match press.key {
        Key::Char('q') => true,
        Key::Char('c') => press.control,
        _ => false,
    }
}

/// The tab that a key asks for: digits count from one.
pub open spec fn tab_of_key(key: Key) -> Option<int> {
    match key {
        Key::Char(c) => if is_digit(c) && c != '0' {
            Some(c as int - '0' as int - 1)
        } else {
            None
        },
        _ => None,
    }
}

/// An event's key asks for one of the `count` tabs there are.
pub open spec fn asks_for_tab(key: Option<Key>, count: int) -> bool {
    key is Some && tab_of_key(key->0) is Some && tab_of_key(key->0)->0 < count
}

/// The tab that is shown after an event.
pub open spec fn shown_after(current: int, key: Option<Key>, count: int) -> int {
    if asks_for_tab(key, count) {
        tab_of_key(key->0)->0
    } else {
        current
    }
}

/// A title with the digit that asks for its tab.
pub open spec fn tab_label(i: int, title: Seq<char>) -> Seq<char> {
    "["@ + decimal((i + 1) as nat) + "] "@ + title
}

/// Titles with the digits that ask for their tabs.
pub open spec fn tab_labels(titles: Seq<Seq<char>>) -> Seq<Seq<char>> {
    Seq::new(titles.len(), |i: int| tab_label(i, titles[i]))
}

/// Tabs, one of which is shown.
#[derive(Debug)]
pub struct TabbedWidget {
    pub current_tab: usize,
    pub tab_titles: Vec<String>,
}

/// Who gets an event.
#[derive(Debug, Clone, Copy, PartialEq, Eq, Structural)]
pub enum EventTarget {
    /// The tabs themselves took it.
    Tabs,
    /// The tab at this place.
    Tab(usize),
}

impl TabbedWidget {
    /// Tabs with the given titles, of which the first is shown.
    pub fn new(tab_titles: Vec<String>) -> (r: Self)
        ensures
            r.current_tab == 0,
            r.tab_titles == tab_titles,
    {
        TabbedWidget { current_tab: 0, tab_titles }
    }

    /// The tab that a key asks for.
    pub fn get_tab_from_key(&self, key: Key) -> (r: Option<usize>)
        ensures
            match r {
                Some(t) => tab_of_key(key) == Some(t as int),
                None => tab_of_key(key) is None,
            },
    {
        match key {
            Key::Char(c) => {
                if '1' <= c && c <= '9' {
                    Some((c as u32 - '1' as u32) as usize)
                } else {
                    None
                }
            },
            _ => None,
        }
    }

    /// Takes in an event, with its key where it has one. A key that asks for one of the `count` tabs
    /// there are shows it; everything else is for the tab that is shown.
    pub fn on_ui_event(&mut self, key: Option<Key>, count: usize) -> (r: EventTarget)
        ensures
            final(self).tab_titles == old(self).tab_titles,
            final(self).current_tab == shown_after(old(self).current_tab as int, key, count as int),
            r == (if asks_for_tab(key, count as int) {
                EventTarget::Tabs
            } else {
                EventTarget::Tab(old(self).current_tab)
            }),
    {
        if let Some(k) = key {
            if let Some(new_tab) = self.get_tab_from_key(k) {
                if new_tab < count {
                    self.current_tab = new_tab;
                    return EventTarget::Tabs;
                }
            }
        }
        EventTarget::Tab(self.current_tab)
    }

    /// The titles as the bar of tabs shows them.
    pub fn labels(&self) -> (r: Vec<String>)
        ensures
            views(r@) == tab_labels(views(self.tab_titles@)),
    {
        broadcast use lemma_views_push;

        let mut r: Vec<String> = Vec::new();
        let mut i: usize = 0;
        let ghost titles = views(self.tab_titles@);
        assert(views(r@) =~= tab_labels(titles.take(0)));
        while i < self.tab_titles.len()
            invariant
                i <= self.tab_titles@.len(),
                titles == views(self.tab_titles@),
                views(r@) == tab_labels(titles.take(i as int)),
            decreases self.tab_titles@.len() - i,
        {
            broadcast use lemma_views_push;

            let mut s = "[".to_string();
            s.append(decimal_text(i as u64 + 1).as_str());
            s.append("] ");
            s.append(self.tab_titles[i].as_str());
            assert(titles[i as int] == self.tab_titles@[i as int]@);
            assert(s@ =~= tab_label(i as int, titles[i as int]));
            r.push(s);
            i = i + 1;
            assert(views(r@) =~= tab_labels(titles.take(i as int)));
        }
        assert(titles.take(i as int) =~= titles);
        r
    }
}

/// Where the bar of tabs stands, and below it the tab that is shown.
pub fn tab_areas(area: Rect) -> (r: (Rect, Rect))
    requires
        area.counts(),
    ensures
        is_row_of(r.0, area),
        is_row_of(r.1, area),
        area.height >= 2 ==> r == (
            (Rect { height: 2, ..area }),
            (Rect { y: (area.y + 2) as u16, height: (area.height - 2) as u16, ..area }),
        ),
{
    let sizes = vec![RowSize::Length(2), RowSize::Min(0)];
    let rows = split_rows(area, &sizes);
    proof {
        reveal_with_fuel(fixed_height, 3);
        assert(sizes@.drop_last().drop_last().len() == 0);
        assert(one_takes_the_rest(sizes@, 1));
        assert(is_row_of(rows@[0], area) && is_row_of(rows@[1], area));
        if area.height >= 2 {
            assert(rows@[0].height == exact_height(sizes@, 1, area.height as int, 0));
            assert(rows@[1].height == exact_height(sizes@, 1, area.height as int, 1));
        }
    }
    (rows[0], rows[1])
}

/// A tab that is shown is one of those there are, and stays so, whatever keys are pressed.
pub proof fn law_the_shown_tab_is_there(current: int, key: Option<Key>, count: int)
    requires
        0 <= current < count,
    ensures
        0 <= shown_after(current, key, count) < count,
{
}

/// Q ends the terminal, and so does C with control; nothing else does.
pub proof fn law_keys_that_end_the_terminal(press: KeyPress)
    ensures
        shuts_down(press) <==> press.key == Key::Char('q') || (press.control && press.key == Key::Char(
            'c',
        )),
{
}

/// The digits from one to nine ask for the tabs in their order, and no other key asks for one. A tab is
/// shown once it was asked for and is there.
pub proof fn law_digits_ask_for_tabs(digit: int, key: Key, current: int, count: int)
    ensures
        1 <= digit <= 9 ==> tab_of_key(Key::Char((48 + digit) as char)) == Some(digit - 1),
        tab_of_key(key) is Some ==> (key matches Key::Char(c) && '1' <= c <= '9'),
        1 <= digit <= 9 && digit <= count ==> shown_after(
            current,
            Some(Key::Char((48 + digit) as char)),
            count,
        ) == digit - 1,
        1 <= digit <= 9 && digit > count ==> shown_after(
            current,
            Some(Key::Char((48 + digit) as char)),
            count,
        ) == current,
        shown_after(current, None, count) == current,
        tab_of_key(key) is None ==> shown_after(current, Some(key), count) == current,
{
}

/// A tab is labelled with the digit that asks for it, counted from one, and its title.
pub proof fn law_tabs_are_labelled(titles: Seq<Seq<char>>, i: int)
    requires
        0 <= i < titles.len(),
    ensures
        tab_labels(titles).len() == titles.len(),
        tab_labels(titles)[i] == "["@ + decimal((i + 1) as nat) + "] "@ + titles[i],
{
}

} // verus!
