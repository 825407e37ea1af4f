//! Category codes.
use crate::deser::{flexible_u16, u16_from_str, FromJson};
use crate::error::DecodeError;
use crate::json::Json;
use crate::tables::{lemma_one_row, listed, listed_name, row_of, CATEGORIES};
use serde_json::Value;
use vstd::prelude::*;

verus! {

/// A media category code.
///
/// `Category::new` gives only codes of the table. A code read from a
/// response is kept as it came, listed or not.
#[derive(Debug, Clone, Copy, PartialEq, Eq)]
pub struct Category(u16);

impl View for Category {
    type V = u16;

    closed spec fn view(&self) -> u16 {
        self.0
    }
}

impl DeepView for Category {
    type V = u16;

    open spec fn deep_view(&self) -> u16 {
        self@
    }
}

/// The group that a code belongs to: the code with its last two digits
/// cleared.
pub open spec fn group_of(code: u16) -> u16 {
    (code - code % 100) as u16
}

/// The name under which a code is shown: its own where it is listed, else
/// its group's where that is listed, else `Unknown`.
pub open spec fn name_of(code: u16) -> Seq<char> {
    if listed(code) {
        listed_name(code)
    } else if listed(group_of(code)) {
        listed_name(group_of(code))
    } else {
        "Unknown"@
    }
}

/// A code without a row of its own, in a group that has one, is named as
/// the group is.
pub proof fn lemma_named_after_group(code: u16)
    requires
        !listed(code),
        listed(group_of(code)),
    ensures
        name_of(code) == name_of(group_of(code)),
{
}

/// A code without a row, in a group without one, is named `Unknown`.
pub proof fn lemma_unknown(code: u16)
    requires
        !listed(code),
        !listed(group_of(code)),
    ensures
        name_of(code) == "Unknown"@,
{
}

/// The name in the table's row for `code`, by a scan from the top.
fn lookup(code: u16) -> (r: Option<&'static str>)
    ensures
        (match r {
            Some(name) => listed(code) && name@ == listed_name(code),
            None => !listed(code),
        }),
{
    let mut i: usize = 0;
    while i < CATEGORIES.len()
        invariant
            i <= CATEGORIES@.len(),
            forall|j: int| 0 <= j < i ==> !row_of(code, j),
        decreases CATEGORIES@.len() - i,
    {
        if CATEGORIES[i].0 == code {
            proof {
                lemma_one_row(code, i as int, choose|j: int| row_of(code, j));
            }
            return Some(CATEGORIES[i].1);
        }
        i += 1;
    }
    None
}

impl Category {
    /// The category with this code, if the table lists it.
    pub fn new(id: u16) -> (r: Option<Self>)
        ensures
            (match r {
                Some(c) => listed(id) && c@ == id,
                None => !listed(id),
            }),
    {
        match lookup(id) {
            Some(_) => Some(Category(id)),
            None => None,
        }
    }

    /// All categories of the table, in table order.
    pub fn all() -> (r: Vec<Self>)
        ensures
            r@.len() == CATEGORIES@.len(),
            forall|i: int| 0 <= i < r@.len() ==> (#[trigger] r@[i])@ == CATEGORIES@[i].0,
    {
        let mut out: Vec<Category> = Vec::new();
        let mut i: usize = 0;
        while i < CATEGORIES.len()
            invariant
                i <= CATEGORIES@.len(),
                out@.len() == i,
                forall|j: int| 0 <= j < i ==> (#[trigger] out@[j])@ == CATEGORIES@[j].0,
            decreases CATEGORIES@.len() - i,
        {
            out.push(Category(CATEGORIES[i].0));
            i += 1;
        }
        out
    }

    /// The name of this category.
    pub fn name(&self) -> (r: &'static str)
        ensures
            r@ == name_of(self@),
    {
        match lookup(self.0) {
            Some(name) => name,
            None => match lookup(self.0 - self.0 % 100) {
                Some(name) => name,
                None => "Unknown",
            },
        }
    }

    /// The code of this category.
    pub fn code(&self) -> (r: u16)
        ensures
            r == self@,
    {
        self.0
    }
}

/// A category is read as a `u16`, from a number or from text; the code is
/// not held against the table.
impl FromJson for Category {
    open spec fn decoding(m: Json) -> Result<u16, DecodeError> {
        flexible_u16(m)
    }

    fn from_json(value: &Value) -> (r: Result<Category, DecodeError>) {
        match u16_from_str(value) {
            Ok(code) => Ok(Category(code)),
            Err(e) => Err(e),
        }
    }
}

} // verus!
