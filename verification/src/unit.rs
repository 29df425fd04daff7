//! The compiled crate that bindings are generated for.
//!
//! A [`CompiledUnit`] is a snapshot of what the compiler knows of one crate
//! once type checking is done: the crate's name, its local definitions, and
//! its export table in the compiler's order. Nothing here changes a
//! snapshot after it was made.

use vstd::prelude::*;

verus! {

/// The number of the crate that is being compiled, among all crates that
/// the compiler has loaded.
pub const LOCAL_CRATE: u32 = 0;

/// A definition in some crate: the crate's number and the definition's
/// index in that crate.
#[derive(Clone, Copy, Debug, PartialEq, Eq, Structural)]
pub struct DefId {
    pub krate: u32,
    pub index: u32,
}

/// A definition of the crate that is being compiled, by its index.
#[derive(Clone, Copy, Debug, PartialEq, Eq, Structural)]
pub struct LocalDefId {
    pub index: u32,
}

impl DefId {
    /// Whether the definition belongs to the crate that is being compiled.
    pub open spec fn local(self) -> bool {
        self.krate == LOCAL_CRATE
    }

    /// Whether the definition belongs to the crate that is being compiled.
    pub fn is_local(&self) -> (local: bool)
        ensures
            local == self.local(),
    {
        self.krate == LOCAL_CRATE
    }

    /// The definition as a local one, where it is local.
    pub fn as_local(&self) -> (id: Option<LocalDefId>)
        ensures
            id == (if self.local() {
                Some(LocalDefId { index: self.index })
            } else {
                None
            }),
    {
        if self.krate == LOCAL_CRATE {
            Some(LocalDefId { index: self.index })
        } else {
            None
        }
    }

    /// The definition as a local one. The caller shows that it is local.
    pub fn expect_local(&self) -> (id: LocalDefId)
        requires
            self.local(),
        ensures
            id == (LocalDefId { index: self.index }),
    {
        LocalDefId { index: self.index }
    }
}

impl LocalDefId {
    /// The same definition, named as any crate's definitions are.
    pub fn to_def_id(&self) -> (id: DefId)
        ensures
            id == (DefId { krate: LOCAL_CRATE, index: self.index }),
            id.local(),
    {
        DefId { krate: LOCAL_CRATE, index: self.index }
    }
}

/// What bindings generation reads of one local definition.
#[derive(Clone, Debug)]
pub struct Definition {
    /// The qualified name under which the definition is shown to a reader.
    pub path: String,
    /// Where the definition stands in the source, as the compiler writes a
    /// location into messages.
    pub span: String,
}

/// A [`Definition`] in contracts.
pub struct DefinitionView {
    pub path: Seq<char>,
    pub span: Seq<char>,
}

impl View for Definition {
    type V = DefinitionView;

    open spec fn view(&self) -> DefinitionView {
        DefinitionView { path: self.path@, span: self.span@ }
    }
}

/// One entry of a crate's export table.
#[derive(Clone, Debug)]
pub enum ExportedSymbol {
    /// A definition that has no generic parameters. The compiler exports
    /// such a definition only from the crate that holds it.
    NonGeneric(DefId),
    /// A generic definition, of this crate or another, together with the
    /// arguments that it was instantiated with.
    Generic(DefId, Vec<String>),
    /// The code that drops a value of the type named.
    DropGlue(String),
    /// A symbol that stands for no definition, by its name.
    NoDefId(String),
}

/// An [`ExportedSymbol`] in contracts.
pub enum ExportedSymbolView {
    NonGeneric(DefId),
    Generic(DefId, Seq<Seq<char>>),
    DropGlue(Seq<char>),
    NoDefId(Seq<char>),
}

impl View for ExportedSymbol {
    type V = ExportedSymbolView;

    open spec fn view(&self) -> ExportedSymbolView {
        match self {
            ExportedSymbol::NonGeneric(id) => ExportedSymbolView::NonGeneric(*id),
            ExportedSymbol::Generic(id, args) => ExportedSymbolView::Generic(
                *id,
                args@.map_values(|arg: String| arg@),
            ),
            ExportedSymbol::DropGlue(ty) => ExportedSymbolView::DropGlue(ty@),
            ExportedSymbol::NoDefId(name) => ExportedSymbolView::NoDefId(name@),
        }
    }
}

impl ExportedSymbolView {
    /// Whether the entry fits a crate of `count` local definitions: a
    /// non-generic entry names one of them, and so does a generic entry if
    /// it names a local definition at all.
    pub open spec fn resolves(self, count: nat) -> bool {
        match self {
            ExportedSymbolView::NonGeneric(id) => id.local() && id.index < count,
            ExportedSymbolView::Generic(id, _) => id.local() ==> id.index < count,
            ExportedSymbolView::DropGlue(_) => true,
            ExportedSymbolView::NoDefId(_) => true,
        }
    }
}

impl ExportedSymbol {
    /// Whether the entry fits a crate of `count` local definitions.
    pub fn resolves(&self, count: usize) -> (ok: bool)
        ensures
            ok == self@.resolves(count as nat),
    {
        match self {
            ExportedSymbol::NonGeneric(id) => id.is_local() && index_below(id.index, count),
            ExportedSymbol::Generic(id, _) => !id.is_local() || index_below(id.index, count),
            ExportedSymbol::DropGlue(_) => true,
            ExportedSymbol::NoDefId(_) => true,
        }
    }
}

/// Whether a definition's index is less than a count of definitions.
fn index_below(index: u32, count: usize) -> (below: bool)
    ensures
        below == (index < count),
{
    match usize::try_from(index) {
        Ok(i) => i < count,
        Err(_) => false,
    }
}


/// A [`CompiledUnit`] in contracts.
pub struct CompiledUnitView {
    /// The crate's name.
    pub name: Seq<char>,
    /// The crate's local definitions, each at its index.
    pub definitions: Seq<DefinitionView>,
    /// The export table, in the compiler's order.
    pub exported_symbols: Seq<ExportedSymbolView>,
}

impl CompiledUnitView {
    /// Whether every entry of the export table fits the crate's
    /// definitions.
    pub open spec fn well_formed(self) -> bool {
        forall|i: int|
            0 <= i < self.exported_symbols.len() ==> (#[trigger] self.exported_symbols[i]).resolves(
                self.definitions.len(),
            )
    }

    /// Whether `id` names one of the crate's definitions.
    pub open spec fn has_definition(self, id: LocalDefId) -> bool {
        id.index < self.definitions.len()
    }

    /// The definition that `id` names.
    pub open spec fn definition(self, id: LocalDefId) -> DefinitionView
        recommends
            self.has_definition(id),
    {
        self.definitions[id.index as int]
    }
}

/// Why a name, definitions and an export table make no [`CompiledUnit`].
#[derive(Clone, Copy, Debug, PartialEq, Eq, Structural)]
pub enum UnitError {
    /// The entry at this place of the export table does not fit the
    /// definitions; no entry before it fails so.
    Unresolved(usize),
}

/// The views of `definitions`, each at its index.
pub open spec fn definition_views(definitions: Seq<Definition>) -> Seq<DefinitionView> {
    definitions.map_values(|d: Definition| d@)
}

/// The views of `symbols`, in their order.
pub open spec fn symbol_views(symbols: Seq<ExportedSymbol>) -> Seq<ExportedSymbolView> {
    symbols.map_values(|s: ExportedSymbol| s@)
}

/// A snapshot of one crate after type checking. Every entry of its export
/// table fits its definitions; [`CompiledUnit::new`] makes no other
/// snapshot.
#[derive(Debug)]
pub struct CompiledUnit {
    name: String,
    definitions: Vec<Definition>,
    exported_symbols: Vec<ExportedSymbol>,
}

impl View for CompiledUnit {
    type V = CompiledUnitView;

    closed spec fn view(&self) -> CompiledUnitView {
        CompiledUnitView {
            name: self.name@,
            definitions: definition_views(self.definitions@),
            exported_symbols: symbol_views(self.exported_symbols@),
        }
    }
}

impl CompiledUnit {
    #[verifier::type_invariant]
    pub open spec fn inv(&self) -> bool {
        self@.well_formed()
    }

    /// The snapshot of the crate `name` with these definitions and this
    /// export table, if every entry of the table fits the definitions;
    /// else the place of the first entry that does not.
    pub fn new(
        name: String,
        definitions: Vec<Definition>,
        exported_symbols: Vec<ExportedSymbol>,
    ) -> (result: Result<CompiledUnit, UnitError>)
        ensures
            result is Ok <==> forall|j: int|
                0 <= j < exported_symbols@.len() ==> (#[trigger] exported_symbols@[j])@.resolves(
                    definitions@.len(),
                ),
            match result {
                Ok(unit) => {
                    &&& unit@.name == name@
                    &&& unit@.definitions == definition_views(definitions@)
                    &&& unit@.exported_symbols == symbol_views(exported_symbols@)
                    &&& unit@.well_formed()
                },
                Err(UnitError::Unresolved(at)) => {
                    &&& at < exported_symbols@.len()
                    &&& !exported_symbols@[at as int]@.resolves(definitions@.len())
                    &&& forall|j: int|
                        0 <= j < at ==> (#[trigger] exported_symbols@[j])@.resolves(
                            definitions@.len(),
                        )
                },
            },
    {
        let count: usize = definitions.len();
        let n: usize = exported_symbols.len();
        let mut i: usize = 0;
        while i < n
            invariant
                n == exported_symbols@.len(),
                count == definitions@.len(),
                i <= n,
                forall|j: int|
                    0 <= j < i ==> (#[trigger] exported_symbols@[j])@.resolves(count as nat),
            decreases n - i,
        {
            if !exported_symbols[i].resolves(count) {
                return Err(UnitError::Unresolved(i));
            }
            i = i + 1;
        }
        proof {
            let views = symbol_views(exported_symbols@);
            assert forall|j: int| 0 <= j < views.len() implies (#[trigger] views[j]).resolves(
                definition_views(definitions@).len(),
            ) by {
                assert(views[j] == exported_symbols@[j]@);
            }
        }
        Ok(CompiledUnit { name, definitions, exported_symbols })
    }

    /// The crate's name.
    pub fn crate_name(&self) -> (name: &str)
        ensures
            name@ == self@.name,
    {
        self.name.as_str()
    }

    /// How many entries the export table has.
    pub fn exported_symbol_count(&self) -> (count: usize)
        ensures
            count == self@.exported_symbols.len(),
    {
        self.exported_symbols.len()
    }

    /// The entry at place `i` of the export table.
    pub fn exported_symbol(&self, i: usize) -> (symbol: &ExportedSymbol)
        requires
            i < self@.exported_symbols.len(),
        ensures
            symbol@ == self@.exported_symbols[i as int],
    {
        &self.exported_symbols[i]
    }

    /// The definition that `id` names, if the crate holds one there.
    pub fn definition(&self, id: LocalDefId) -> (found: Option<&Definition>)
        ensures
            found is Some <==> self@.has_definition(id),
            found matches Some(d) ==> d@ == self@.definition(id),
    {
        match usize::try_from(id.index) {
            Ok(i) => {
                if i < self.definitions.len() {
                    Some(&self.definitions[i])
                } else {
                    None
                }
            },
            Err(_) => None,
        }
    }
}

} // verus!
