use vstd::prelude::*;

verus! {

/// Section that holds the executable code of the restricted phase.
pub open spec fn text_marker() -> Seq<char> {
    ".init.text"@
}

/// Section that holds the read-only data of the restricted phase.
pub open spec fn rodata_marker() -> Seq<char> {
    ".init.rodata"@
}

/// Section that holds the mutable data of the restricted phase.
pub open spec fn data_marker() -> Seq<char> {
    ".init.data"@
}

/// Phase of the program's lifetime that a definition belongs to.
#[derive(Clone, Copy, Debug, PartialEq, Eq, Structural)]
pub enum Phase {
    Restricted,
    Normal,
}

/// What kind of definition a marker is attached to.
#[derive(Clone, Copy, Debug, PartialEq, Eq, Structural)]
pub enum DeclKind {
    Function,
    Static,
}

/// The view of an optional marker string.
pub open spec fn marker_view(m: Option<String>) -> Option<Seq<char>> {
    match m {
        Some(s) => Some(s@),
        None => None,
    }
}

/// Phase of a definition of kind `kind` whose placement marker is `m`.
pub open spec fn phase_of(kind: DeclKind, m: Option<Seq<char>>) -> Phase {
    match (kind, m) {
        (DeclKind::Function, Some(s)) if s == text_marker() => Phase::Restricted,
        (DeclKind::Static, Some(s)) if s == rodata_marker() || s == data_marker() => Phase::Restricted,
        _ => Phase::Normal,
    }
}

fn same_text(s: &String, lit: &str) -> (r: bool)
    ensures
        r == (s@ == lit@),
{
    let t = lit.to_owned();
    *s == t
}

/// Classifies a definition by its placement marker. A missing or unknown
/// marker makes the definition normal.
pub fn classify(kind: DeclKind, marker: &Option<String>) -> (r: Phase)
    ensures
        r == phase_of(kind, marker_view(*marker)),
{
    proof {
        reveal_strlit(".init.text");
        reveal_strlit(".init.rodata");
        reveal_strlit(".init.data");
    }
    match marker {
        None => Phase::Normal,
        Some(s) => match kind {
            DeclKind::Function => {
                if same_text(s, ".init.text") {
                    Phase::Restricted
                } else {
                    Phase::Normal
                }
            },
            DeclKind::Static => {
                if same_text(s, ".init.rodata") || same_text(s, ".init.data") {
                    Phase::Restricted
                } else {
                    Phase::Normal
                }
            },
        },
    }
}

/// A definition as the host's resolver reports it.
pub struct Symbol {
    pub def: u64,
    pub kind: DeclKind,
    pub marker: Option<String>,
}

/// The latest entry for `def` in `entries`, if any.
pub open spec fn lookup(entries: Seq<Symbol>, def: u64) -> Option<Symbol>
    decreases entries.len(),
{
    if entries.len() == 0 {
        None
    } else if entries.last().def == def {
        Some(entries.last())
    } else {
        lookup(entries.drop_last(), def)
    }
}

/// Definitions known to the analysis, with their kinds and markers.
pub struct SymbolTable {
    pub entries: Vec<Symbol>,
}

impl SymbolTable {
    /// Phase of `def` when it is a definition of kind `kind`; an unknown
    /// definition, or one of another kind, is normal.
    pub open spec fn phase(&self, def: u64, kind: DeclKind) -> Phase {
        match lookup(self.entries@, def) {
            Some(sym) => if sym.kind == kind {
                phase_of(kind, marker_view(sym.marker))
            } else {
                Phase::Normal
            },
            None => Phase::Normal,
        }
    }

    pub fn new() -> (r: SymbolTable)
        ensures
            r.entries@.len() == 0,
            forall|d: u64, k: DeclKind| #[trigger] r.phase(d, k) == Phase::Normal,
    {
        SymbolTable { entries: Vec::new() }
    }

    /// Records a definition; it replaces an earlier record of the same one.
    pub fn insert(&mut self, def: u64, kind: DeclKind, marker: Option<String>)
        ensures
            final(self).entries@ == old(self).entries@.push(Symbol { def, kind, marker }),
            forall|d: u64, k: DeclKind|
                #[trigger] final(self).phase(d, k) == if d == def {
                    if k == kind { phase_of(kind, marker_view(marker)) } else { Phase::Normal }
                } else {
                    old(self).phase(d, k)
                },
    {
        self.entries.push(Symbol { def, kind, marker });
        assert(final(self).entries@.drop_last() == old(self).entries@);
    }

    /// Phase of `def` as a definition of kind `kind`.
    pub fn phase_of_def(&self, def: u64, kind: DeclKind) -> (r: Phase)
        ensures
            r == self.phase(def, kind),
    {
        let mut i: usize = self.entries.len();
        assert(self.entries@.subrange(0, i as int) == self.entries@);
        while i > 0
            invariant
                i <= self.entries@.len(),
                lookup(self.entries@, def) == lookup(self.entries@.subrange(0, i as int), def),
            decreases i,
        {
            let sym = &self.entries[i - 1];
            if sym.def == def {
                if sym.kind == kind {
                    return classify(kind, &sym.marker);
                } else {
                    return Phase::Normal;
                }
            }
            assert(self.entries@.subrange(0, i as int).drop_last()
                == self.entries@.subrange(0, i - 1));
            i = i - 1;
        }
        Phase::Normal
    }
}

} // verus!
