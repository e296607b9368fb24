use vstd::prelude::*;
use crate::strutil::{ascii_lower, push_char, spec_ascii_lower, str_to_chars, chars_to_string};

verus! {

/// One entry of an interactive menu: its label and the key that jumps to
/// it.
#[derive(Debug)]
pub struct MenuChoice {
    pub name: String,
    pub shortcut: char,
}

/// The position of the first character of `name` that is the shortcut,
/// ignoring ASCII case.
pub open spec fn spec_shortcut_pos(name: Seq<char>, shortcut: char) -> Option<int>
    decreases name.len(),
{
    if name.len() == 0 {
        None
    } else if spec_ascii_lower(name[0]) == spec_ascii_lower(shortcut) {
        Some(0)
    } else {
        match spec_shortcut_pos(name.drop_first(), shortcut) {
            Some(i) => Some(i + 1),
            None => None,
        }
    }
}

proof fn lemma_shortcut_pos_at(name: Seq<char>, shortcut: char, i: int)
    requires
        0 <= i < name.len(),
        spec_ascii_lower(name[i]) == spec_ascii_lower(shortcut),
        forall|j: int| 0 <= j < i ==> spec_ascii_lower(name[j]) != spec_ascii_lower(shortcut),
    ensures
        spec_shortcut_pos(name, shortcut) == Some(i),
    decreases i,
{
    if i > 0 {
        lemma_shortcut_pos_at(name.drop_first(), shortcut, i - 1);
    }
}

proof fn lemma_shortcut_pos_none(name: Seq<char>, shortcut: char)
    requires
        forall|j: int| 0 <= j < name.len() ==> spec_ascii_lower(name[j]) != spec_ascii_lower(
            shortcut,
        ),
    ensures
        spec_shortcut_pos(name, shortcut) is None,
    decreases name.len(),
{
    if name.len() > 0 {
        lemma_shortcut_pos_none(name.drop_first(), shortcut);
    }
}

/// The label with the shortcut marked: the first occurrence of the shortcut
/// in the label (ignoring ASCII case) is replaced by the shortcut between
/// brackets; a label that never holds it stays itself.
pub open spec fn spec_display_string(name: Seq<char>, shortcut: char) -> Seq<char> {
    match spec_shortcut_pos(name, shortcut) {
        Some(i) => name.subrange(0, i) + seq!['[', shortcut, ']'] + name.subrange(
            i + 1,
            name.len() as int,
        ),
        None => name,
    }
}

impl MenuChoice {
    /// An equal duplicate of the entry.
    pub fn duplicate(&self) -> (r: MenuChoice)
        ensures
            r == *self,
    {
        MenuChoice { name: self.name.clone(), shortcut: self.shortcut }
    }

    /// The label with its shortcut marked between brackets.
    pub fn to_display_string(&self) -> (r: String)
        ensures
            r@ == spec_display_string(self.name@, self.shortcut),
    {
        let chars = str_to_chars(self.name.as_str());
        let n = chars.len();
        let mut i: usize = 0;
        while i < n
            invariant
                chars@ == self.name@,
                n == chars@.len(),
                0 <= i <= n,
                forall|j: int|
                    0 <= j < i ==> spec_ascii_lower(chars@[j]) != spec_ascii_lower(self.shortcut),
            decreases n - i,
        {
            if ascii_lower(chars[i]) == ascii_lower(self.shortcut) {
                proof {
                    lemma_shortcut_pos_at(self.name@, self.shortcut, i as int);
                }
                let mut out: Vec<char> = Vec::new();
                let mut k: usize = 0;
                while k < i
                    invariant
                        chars@ == self.name@,
                        0 <= k <= i < chars@.len(),
                        out@ == chars@.subrange(0, k as int),
                    decreases i - k,
                {
                    out.push(chars[k]);
                    proof {
                        assert(out@ =~= chars@.subrange(0, k + 1));
                    }
                    k = k + 1;
                }
                out.push('[');
                out.push(self.shortcut);
                out.push(']');
                let mut k2: usize = i + 1;
                let ghost prefix = out@;
                while k2 < n
                    invariant
                        chars@ == self.name@,
                        n == chars@.len(),
                        0 <= i < n,
                        i + 1 <= k2 <= n,
                        out@ == prefix + chars@.subrange(i + 1, k2 as int),
                    decreases n - k2,
                {
                    out.push(chars[k2]);
                    proof {
                        assert(out@ =~= prefix + chars@.subrange(i + 1, k2 + 1));
                    }
                    k2 = k2 + 1;
                }
                proof {
                    assert(out@ =~= spec_display_string(self.name@, self.shortcut));
                }
                return chars_to_string(&out);
            }
            i = i + 1;
        }
        proof {
            lemma_shortcut_pos_none(self.name@, self.shortcut);
        }
        self.name.clone()
    }
}

/// One key event a menu reacts to.
#[derive(Debug, Clone, Copy, PartialEq, Eq, Structural)]
pub enum MenuKey {
    Up,
    Down,
    Left,
    Right,
    Enter,
    Char(char),
}

/// The views of a list of menu entries.
pub open spec fn choices_view(v: Seq<MenuChoice>) -> Seq<(Seq<char>, char)> {
    v.map_values(|c: MenuChoice| (c.name@, c.shortcut))
}

/// A single-selection menu: its entries, the highlighted position, and
/// whether it is laid out as a column (arrows up and down) or as a row
/// (arrows left and right).
#[derive(Debug)]
pub struct MenuSelection {
    pub choices: Vec<MenuChoice>,
    pub current: u8,
    pub column: bool,
}

impl MenuSelection {
    /// The menu's structural invariant: the highlight stays on an entry and
    /// every entry is reachable by its position.
    pub open spec fn wf(&self) -> bool {
        &&& 1 <= self.choices@.len() <= 255
        &&& (self.current as int) < self.choices@.len()
    }

    /// A menu over the given entries, the first one highlighted.
    pub fn new(choices: Vec<MenuChoice>, column: bool) -> (r: MenuSelection)
        requires
            1 <= choices@.len() <= 255,
        ensures
            r.wf(),
            r.choices@ == choices@,
            r.current == 0,
            r.column == column,
    {
        MenuSelection { choices, current: 0, column }
    }

    /// Takes one key: in a column the up and down arrows move the
    /// highlight, in a row the left and right arrows do; a character jumps
    /// to the first entry whose shortcut it is (lowered, as typed); enter
    /// hands back the highlighted position.
    pub fn handle_key(&mut self, key: MenuKey) -> (r: Option<u8>)
        requires
            old(self).wf(),
        ensures
            final(self).wf(),
            final(self).choices@ == old(self).choices@,
            final(self).column == old(self).column,
            match key {
                MenuKey::Up => r is None && final(self).current as int == (if old(self).column
                    && old(self).current > 0 {
                    old(self).current - 1
                } else {
                    old(self).current as int
                }),
                MenuKey::Down => r is None && final(self).current as int == (if old(self).column
                    && (old(self).current as int) < old(self).choices@.len() - 1 {
                    old(self).current + 1
                } else {
                    old(self).current as int
                }),
                MenuKey::Left => r is None && final(self).current as int == (if !old(self).column
                    && old(self).current > 0 {
                    old(self).current - 1
                } else {
                    old(self).current as int
                }),
                MenuKey::Right => r is None && final(self).current as int == (if !old(self).column
                    && (old(self).current as int) < old(self).choices@.len() - 1 {
                    old(self).current + 1
                } else {
                    old(self).current as int
                }),
                MenuKey::Enter => r == Some(old(self).current) && final(self).current == old(
                    self,
                ).current,
                MenuKey::Char(c) => {
                    &&& r is None
                    &&& if exists|j: int|
                        0 <= j < old(self).choices@.len() && spec_ascii_lower(
                            #[trigger] old(self).choices@[j].shortcut,
                        ) == c {
                        ({
                            let j = final(self).current as int;
                            &&& 0 <= j < old(self).choices@.len()
                            &&& spec_ascii_lower(old(self).choices@[j].shortcut) == c
                            &&& forall|m: int|
                                0 <= m < j ==> spec_ascii_lower(
                                    #[trigger] old(self).choices@[m].shortcut,
                                ) != c
                        })
                    } else {
                        final(self).current == old(self).current
                    }
                },
            },
    {
        match key {
            MenuKey::Up => {
                if self.current > 0 && self.column {
                    self.current = self.current - 1;
                }
                None
            },
            MenuKey::Down => {
                if self.column && (self.current as usize) < self.choices.len() - 1 {
                    self.current = self.current + 1;
                }
                None
            },
            MenuKey::Left => {
                if self.current > 0 && !self.column {
                    self.current = self.current - 1;
                }
                None
            },
            MenuKey::Right => {
                if !self.column && (self.current as usize) < self.choices.len() - 1 {
                    self.current = self.current + 1;
                }
                None
            },
            MenuKey::Enter => Some(self.current),
            MenuKey::Char(c) => {
                let n = self.choices.len();
                let mut j: usize = 0;
                while j < n
                    invariant
                        key == MenuKey::Char(c),
                        n == self.choices@.len(),
                        n <= 255,
                        0 <= j <= n,
                        *self == *old(self),
                        forall|m: int|
                            0 <= m < j ==> spec_ascii_lower(
                                #[trigger] self.choices@[m].shortcut,
                            ) != c,
                    decreases n - j,
                {
                    if ascii_lower(self.choices[j].shortcut) == c {
                        proof {
                            assert(spec_ascii_lower(old(self).choices@[j as int].shortcut) == c);
                        }
                        self.current = j as u8;
                        return None;
                    }
                    j = j + 1;
                }
                None
            },
        }
    }
}

/// A multi-toggle menu: its entries, each with an on-off flag, and the
/// highlighted position. Up and down move the highlight, space flips the
/// highlighted flag, a character jumps to a shortcut, and enter finishes,
/// leaving the flags as chosen.
#[derive(Debug)]
pub struct MenuToggle {
    pub items: Vec<(MenuChoice, bool)>,
    pub current: u8,
}

impl MenuToggle {
    /// The menu's structural invariant.
    pub open spec fn wf(&self) -> bool {
        &&& 1 <= self.items@.len() <= 255
        &&& (self.current as int) < self.items@.len()
    }

    /// A toggle menu over the given entries and flags, the first one
    /// highlighted.
    pub fn new(items: Vec<(MenuChoice, bool)>) -> (r: MenuToggle)
        requires
            1 <= items@.len() <= 255,
        ensures
            r.wf(),
            r.items@ == items@,
            r.current == 0,
    {
        MenuToggle { items, current: 0 }
    }

    /// Takes one key; the result says whether the menu is finished.
    pub fn handle_key(&mut self, key: MenuKey) -> (r: bool)
        requires
            old(self).wf(),
        ensures
            final(self).wf(),
            match key {
                MenuKey::Up => !r && final(self).items@ == old(self).items@ && final(self).current as int == (if old(self).current > 0 {
                    old(self).current - 1
                } else {
                    old(self).current as int
                }),
                MenuKey::Down => !r && final(self).items@ == old(self).items@ && final(self).current as int == (if (old(self).current as int) < old(self).items@.len() - 1 {
                    old(self).current + 1
                } else {
                    old(self).current as int
                }),
                MenuKey::Char(' ') => {
                    &&& !r
                    &&& final(self).current == old(self).current
                    &&& final(self).items@ == old(self).items@.update(
                        old(self).current as int,
                        (
                            old(self).items@[old(self).current as int].0,
                            !old(self).items@[old(self).current as int].1,
                        ),
                    )
                },
                MenuKey::Char(c) => {
                    &&& !r
                    &&& final(self).items@ == old(self).items@
                    &&& if exists|j: int|
                        0 <= j < old(self).items@.len() && spec_ascii_lower(
                            #[trigger] old(self).items@[j].0.shortcut,
                        ) == c {
                        ({
                            let j = final(self).current as int;
                            &&& 0 <= j < old(self).items@.len()
                            &&& spec_ascii_lower(old(self).items@[j].0.shortcut) == c
                            &&& forall|m: int|
                                0 <= m < j ==> spec_ascii_lower(
                                    #[trigger] old(self).items@[m].0.shortcut,
                                ) != c
                        })
                    } else {
                        final(self).current == old(self).current
                    }
                },
                MenuKey::Enter => r && *final(self) == *old(self),
                _ => !r && *final(self) == *old(self),
            },
    {
        match key {
            MenuKey::Up => {
                if self.current > 0 {
                    self.current = self.current - 1;
                }
                false
            },
            MenuKey::Down => {
                if (self.current as usize) < self.items.len() - 1 {
                    self.current = self.current + 1;
                }
                false
            },
            MenuKey::Char(c) => {
                if c == ' ' {
                    let idx = self.current as usize;
                    let flag = self.items[idx].1;
                    let name = self.items[idx].0.duplicate();
                    self.items[idx] = (name, !flag);
                    false
                } else {
                    let n = self.items.len();
                    let mut j: usize = 0;
                    while j < n
                        invariant
                            key == MenuKey::Char(c),
                            n == self.items@.len(),
                            n <= 255,
                            0 <= j <= n,
                            *self == *old(self),
                            c != ' ',
                            forall|m: int|
                                0 <= m < j ==> spec_ascii_lower(
                                    #[trigger] self.items@[m].0.shortcut,
                                ) != c,
                        decreases n - j,
                    {
                        if ascii_lower(self.items[j].0.shortcut) == c {
                            proof {
                                assert(spec_ascii_lower(old(self).items@[j as int].0.shortcut)
                                    == c);
                            }
                            self.current = j as u8;
                            return false;
                        }
                        j = j + 1;
                    }
                    false
                }
            },
            MenuKey::Enter => true,
            _ => false,
        }
    }
}

} // verus!
