use vstd::prelude::*;
use crate::text::{has_prefix, same_text, starts_with};

verus! {

/// How an entity of the puzzle can be dragged.
#[derive(Clone, Copy, Debug, PartialEq, Eq, Structural)]
pub enum DraggableKind {
    /// The painting, which slides along its x axis.
    Painting,
    /// A ring of the cryptex, which turns about its x axis.
    Ring,
    /// The end cap of the cryptex, which slides along its x axis.
    Endcap,
}

impl DraggableKind {
    /// Whether this kind slides (rather than turns).
    pub open spec fn spec_slides(self) -> bool {
        !(self is Ring)
    }

    /// Whether this kind slides along its axis rather than turning about it.
    pub fn slides(&self) -> (r: bool)
        ensures
            r == self.spec_slides(),
    {
        match self {
            DraggableKind::Ring => false,
            _ => true,
        }
    }
}

/// How the entity named `name` can be dragged: the end caps (names beginning with
/// `i-endcap`), the rings (names beginning with `i-ring`), the painting (`i-painting`),
/// or not at all.
pub open spec fn spec_draggable_kind(name: Seq<char>) -> Option<DraggableKind> {
    if has_prefix(name, "i-endcap"@) {
        Some(DraggableKind::Endcap)
    } else if has_prefix(name, "i-ring"@) {
        Some(DraggableKind::Ring)
    } else if name == "i-painting"@ {
        Some(DraggableKind::Painting)
    } else {
        None
    }
}

/// Every name that begins with `i-endcap` is an end cap and every name that begins with
/// `i-ring` a ring, whatever follows; `i-painting` is the painting; a name that begins
/// with none of these is not draggable unless it is exactly `i-painting`.
pub proof fn lemma_draggable_names(rest: Seq<char>, name: Seq<char>)
    ensures
        spec_draggable_kind("i-endcap"@ + rest) == Some(DraggableKind::Endcap),
        spec_draggable_kind("i-ring"@ + rest) == Some(DraggableKind::Ring),
        spec_draggable_kind("i-painting"@) == Some(DraggableKind::Painting),
        !has_prefix(name, "i-endcap"@) && !has_prefix(name, "i-ring"@) && name != "i-painting"@
            ==> spec_draggable_kind(name) is None,
{
    reveal_strlit("i-endcap");
    reveal_strlit("i-ring");
    reveal_strlit("i-painting");
    assert(("i-endcap"@ + rest).take(8) =~= "i-endcap"@);
    assert(("i-ring"@ + rest).take(6) =~= "i-ring"@);
    assert(("i-ring"@ + rest)[2] != "i-endcap"@[2]);
    assert(!has_prefix("i-ring"@ + rest, "i-endcap"@));
    assert("i-painting"@[2] != "i-endcap"@[2]);
    assert("i-painting"@[2] != "i-ring"@[2]);
    assert(!has_prefix("i-painting"@, "i-endcap"@));
    assert(!has_prefix("i-painting"@, "i-ring"@));
}

/// How the entity named `name` can be dragged, if at all.
pub fn draggable_kind(name: &str) -> (r: Option<DraggableKind>)
    ensures
        r == spec_draggable_kind(name@),
{
    if starts_with(name, "i-endcap") {
        Some(DraggableKind::Endcap)
    } else if starts_with(name, "i-ring") {
        Some(DraggableKind::Ring)
    } else if same_text(name, "i-painting") {
        Some(DraggableKind::Painting)
    } else {
        None
    }
}

} // verus!
