//! The catalogue of selectable entries that menus are made of.
use vstd::prelude::*;

verus! {

/// One entry of a menu ring.
///
/// An entry with a `command` is selectable: releasing the pointer over it
/// commits the command. An entry with a `subwheel` opens that nested menu
/// when the pointer passes over it. An entry may have both, or neither.
#[derive(Debug)]
pub struct ActionBubble {
    /// Display label.
    pub name: String,
    /// Reference to the entry's picture.
    pub icon: String,
    /// What selecting the entry runs.
    pub command: Option<String>,
    /// The nested menu that the entry opens.
    pub subwheel: Option<Vec<ActionBubble>>,
}

/// `level` is a menu: it has at least one entry, and so, at every depth, has
/// each nested menu of its entries.
pub open spec fn is_menu(level: Seq<ActionBubble>) -> bool
    decreases level,
{
    &&& level.len() >= 1
    &&& forall|i: int|
        0 <= i < level.len() ==> match #[trigger] level[i].subwheel {
            Some(sub) => is_menu(sub@),
            None => true,
        }
}

/// Whether `level` is a menu, down to its deepest nested menu.
pub fn is_well_formed(level: &Vec<ActionBubble>) -> (ok: bool)
    ensures
        ok == is_menu(level@),
    decreases level,
{
    if level.len() == 0 {
        return false;
    }
    let mut i: usize = 0;
    while i < level.len()
        invariant
            0 <= i <= level.len(),
            forall|j: int|
                0 <= j < i ==> match #[trigger] level@[j].subwheel {
                    Some(sub) => is_menu(sub@),
                    None => true,
                },
        decreases level.len() - i,
    {
        match &level[i].subwheel {
            Some(sub) => {
                if !is_well_formed(sub) {
                    return false;
                }
            },
            None => {},
        }
        i = i + 1;
    }
    true
}

impl ActionBubble {
    /// The entry once its command has been committed: a command fires once.
    pub open spec fn spent(self) -> ActionBubble {
        ActionBubble {
            name: self.name,
            icon: self.icon,
            command: None,
            subwheel: self.subwheel,
        }
    }
}

} // verus!
