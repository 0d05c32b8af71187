//! Renderable sidebar rows and their badge rules.
//!
//! An `Item` is a place together with its render-relevant flags: a grouping
//! marker (`separated`) and a non-negative notification count (`badge`).
//! The badge is shown exactly when the count is positive; its label is the
//! plain decimal representation of the count, with no grouping or cap.

use vstd::prelude::*;
use vstd::string::StringExecFns;
use crate::places::Place;
use crate::places::PlaceV;

verus! {

/// A renderable sidebar row: a place plus its grouping flag and badge count.
///
/// `separated` marks that a visual group boundary should be considered
/// before this row; `badge` is the notification count, 0 meaning "no badge
/// shown". Both flags are per-item and independent of the place.
#[derive(Debug, Clone)]
pub struct Item {
    pub place: Place,
    pub separated: bool,
    pub badge: u64,
}

/// Mathematical model of an `Item`.
pub struct ItemV {
    pub place: PlaceV,
    pub separated: bool,
    pub badge: u64,
}

impl View for Item {
    type V = ItemV;

    open spec fn view(&self) -> ItemV {
        ItemV { place: self.place@, separated: self.separated, badge: self.badge }
    }
}

impl Item {
    /// An equal item: same place, same flags.
    pub fn duplicate(&self) -> (r: Item)
        ensures
            r@ == self@,
    {
        Item { place: self.place.duplicate(), separated: self.separated, badge: self.badge }
    }
}

/// Whether an item's badge is shown: exactly when the count is positive.
pub open spec fn badge_visible_spec(item: ItemV) -> bool {
    item.badge > 0
}

/// Whether the notification badge of this row is shown.
pub fn badge_visible(item: &Item) -> (r: bool)
    ensures
        r == badge_visible_spec(item@),
{
    item.badge > 0
}

/// The decimal digit character for a value below ten.
pub open spec fn dec_digit(d: nat) -> char {
    seq!['0', '1', '2', '3', '4', '5', '6', '7', '8', '9'][d as int]
}

/// The decimal representation of a natural number, most significant digit
/// first, with no leading zeros (except for the number 0 itself).
pub open spec fn dec_str(n: nat) -> Seq<char>
    decreases n,
{
    if n < 10 {
        seq![dec_digit(n)]
    } else {
        dec_str(n / 10).push(dec_digit(n % 10))
    }
}

fn dec_digit_str(d: u64) -> (r: &'static str)
    requires
        d < 10,
    ensures
        r@ == seq![dec_digit(d as nat)],
{
    proof {
        reveal_strlit("0");
        reveal_strlit("1");
        reveal_strlit("2");
        reveal_strlit("3");
        reveal_strlit("4");
        reveal_strlit("5");
        reveal_strlit("6");
        reveal_strlit("7");
        reveal_strlit("8");
        reveal_strlit("9");
    }
    let r: &'static str = if d == 0 {
        "0"
    } else if d == 1 {
        "1"
    } else if d == 2 {
        "2"
    } else if d == 3 {
        "3"
    } else if d == 4 {
        "4"
    } else if d == 5 {
        "5"
    } else if d == 6 {
        "6"
    } else if d == 7 {
        "7"
    } else if d == 8 {
        "8"
    } else {
        "9"
    };
    proof {
        assert(r@ =~= seq![dec_digit(d as nat)]);
    }
    r
}

/// The decimal string representation of a number.
pub fn dec_string(n: u64) -> (r: String)
    ensures
        r@ == dec_str(n as nat),
    decreases n,
{
    if n < 10 {
        dec_digit_str(n).to_owned()
    } else {
        proof {
            assert(n as nat / 10 < n as nat) by (nonlinear_arith)
                requires
                    n >= 10,
            ;
        }
        let mut s = dec_string(n / 10);
        s.append(dec_digit_str(n % 10));
        proof {
            assert(s@ =~= dec_str(n as nat));
        }
        s
    }
}

/// The badge label of a row: the decimal representation of its count.
pub fn badge_label(item: &Item) -> (r: String)
    ensures
        r@ == dec_str(item.badge as nat),
{
    dec_string(item.badge)
}

} // verus!
