//! Discovery and loading of a plugin's external UI.
//!
//! A plugin declares zero or more UI entries in its metadata. Exactly one
//! kind is supported here: the "external" UI, recognized by the capability
//! class URI it declares. For a supported entry this module checks that
//! the metadata resolves to a loadable module and a resource bundle, and
//! interprets what the dynamic loader observed when the embedding
//! application opened that module and resolved its single entry symbol.

use vstd::prelude::*;

verus! {

/// A filesystem location parsed out of a metadata URI: the host part
/// (unused, kept for diagnostics) and the local path.
pub struct BinaryPath {
    pub _hostname: String,
    pub path: String,
}

/// The capability class URI that marks a UI entry as an external UI.
pub open spec fn external_ui_widget_uri() -> Seq<char> {
    "http://kxstudio.sf.net/ns/lv2ext/external-ui#Widget"@
}

/// Holds the one capability URI that discovery compares entries against.
pub struct ExternalUIWorld {
    pub external_ui_uri: String,
}

impl ExternalUIWorld {
    pub fn new() -> (r: ExternalUIWorld)
        ensures
            r.external_ui_uri@ == external_ui_widget_uri(),
    {
        ExternalUIWorld {
            external_ui_uri: String::from_str(
                "http://kxstudio.sf.net/ns/lv2ext/external-ui#Widget",
            ),
        }
    }
}

/// What discovery reads out of one plugin-declared UI entry, as plain
/// values: the capability classes the entry declares itself to be, its
/// identifying URI where it resolves to one, and the parsed locations
/// of its loadable module and resource bundle, where those resolve.
pub struct UiEntryInfo {
    pub classes: Vec<String>,
    pub uri: Option<String>,
    pub binary: Option<BinaryPath>,
    pub bundle: Option<BinaryPath>,
}

/// Whether `classes` declares the capability `uri`.
pub open spec fn declares_class(classes: Seq<String>, uri: Seq<char>) -> bool {
    exists|i: int| 0 <= i < classes.len() && classes[i]@ == uri
}

/// A UI entry classified as the supported external kind, with the two
/// locations every later step needs.
pub struct ExternalUI {
    pub binary: BinaryPath,
    pub bundle: BinaryPath,
}

/// Everything that can go wrong between discovery and a running UI.
#[derive(Debug)]
pub enum LiviExternalUIError {
    /// The entry does not declare the one supported capability class —
    /// a classification outcome, not a fault.
    IsNotExternalUI,
    /// The entry's metadata does not resolve to the paths loading needs.
    FailedToInspect,
    /// Building the instantiation request, or the foreign instantiate
    /// call itself, failed; carries a human-readable reason.
    InstantiateError(String),
    /// The dynamic module could not be opened; carries the binary path
    /// and the loader's own error text.
    LoadLibraryError(String, String),
    /// The entry symbol was missing, or produced no function table.
    LoadDescriptorError,
}

impl LiviExternalUIError {
    /// The human-readable description of this error.
    pub open spec fn spec_message(&self) -> Seq<char> {
        match self {
            LiviExternalUIError::IsNotExternalUI => "UI is not an external UI"@,
            LiviExternalUIError::FailedToInspect => "Failed to inspect UI information"@,
            LiviExternalUIError::InstantiateError(e) => "Failed to instantiate UI: "@ + e@,
            LiviExternalUIError::LoadLibraryError(path, e) => "Failed to load descriptor from external UI library "@
                + path@ + ": "@ + e@,
            LiviExternalUIError::LoadDescriptorError => "Failed to load UI descriptor"@,
        }
    }

    pub fn message(&self) -> (r: String)
        ensures
            r@ == self.spec_message(),
    {
        match self {
            LiviExternalUIError::IsNotExternalUI => String::from_str("UI is not an external UI"),
            LiviExternalUIError::FailedToInspect => String::from_str(
                "Failed to inspect UI information",
            ),
            LiviExternalUIError::InstantiateError(e) => String::from_str(
                "Failed to instantiate UI: ",
            ).concat(e.as_str()),
            LiviExternalUIError::LoadLibraryError(path, e) => String::from_str(
                "Failed to load descriptor from external UI library ",
            ).concat(path.as_str()).concat(": ").concat(e.as_str()),
            LiviExternalUIError::LoadDescriptorError => String::from_str(
                "Failed to load UI descriptor",
            ),
        }
    }
}

impl ExternalUI {
    /// An entry is the supported external kind iff it declares the
    /// recognized capability class. The answer depends on this entry
    /// alone.
    pub fn is_external_ui(world: &ExternalUIWorld, ui: &UiEntryInfo) -> (r: bool)
        ensures
            r == declares_class(ui.classes@, world.external_ui_uri@),
    {
        let n = ui.classes.len();
        let mut i: usize = 0;
        while i < n
            invariant
                i <= n,
                n == ui.classes@.len(),
                forall|j: int| 0 <= j < i ==> #[trigger] ui.classes@[j]@ != world.external_ui_uri@,
            decreases n - i,
        {
            let c: &String = &ui.classes[i];
            if c.eq(&world.external_ui_uri) {
                return true;
            }
            i = i + 1;
        }
        false
    }

    /// Turn one classified-external entry into the paths loading needs.
    /// Fails with `IsNotExternalUI` on an entry of another kind, and
    /// with `FailedToInspect` when the module or bundle location is
    /// missing from the metadata.
    pub fn from_ui(world: &ExternalUIWorld, ui: UiEntryInfo) -> (r: Result<
        ExternalUI,
        LiviExternalUIError,
    >)
        ensures
            !declares_class(ui.classes@, world.external_ui_uri@) ==> r matches Err(
                LiviExternalUIError::IsNotExternalUI,
            ),
            declares_class(ui.classes@, world.external_ui_uri@) && !(ui.binary is Some
                && ui.bundle is Some) ==> r matches Err(LiviExternalUIError::FailedToInspect),
            declares_class(ui.classes@, world.external_ui_uri@) && ui.binary is Some
                && ui.bundle is Some ==> ({
                &&& r matches Ok(e)
                &&& ui.binary matches Some(b)
                &&& e.binary == b
                &&& ui.bundle matches Some(d)
                &&& e.bundle == d
            }),
    {
        if Self::is_external_ui(world, &ui) {
            let binary = match ui.binary {
                Some(b) => b,
                None => {
                    return Err(LiviExternalUIError::FailedToInspect);
                },
            };
            let bundle = match ui.bundle {
                Some(b) => b,
                None => {
                    return Err(LiviExternalUIError::FailedToInspect);
                },
            };
            Ok(ExternalUI { binary, bundle })
        } else {
            Err(LiviExternalUIError::IsNotExternalUI)
        }
    }

    /// Interpret what the loader observed for this entry's binary.
    pub fn load(&self, outcome: LoadOutcome) -> (r: Result<ExternalUILibrary, LiviExternalUIError>)
        ensures
            load_result_matches(self, outcome, r),
    {
        ExternalUILibrary::load(self, outcome)
    }
}

/// Plain record of which entries the resolved foreign function table
/// carries. Only the instantiate entry drives a decision here; the
/// table's remaining entries stay with the embedding application.
#[derive(Clone, Copy, PartialEq, Eq, Structural)]
pub struct DescriptorTable {
    pub has_instantiate: bool,
}

/// What the dynamic loader observed while opening the module at the
/// entry's binary path and resolving the mandated entry symbol.
pub enum LoadOutcome {
    /// The module could not be opened; carries the loader's error text.
    OpenFailed(String),
    /// The module opened, but the entry symbol is absent or null.
    MissingEntrySymbol,
    /// The entry function ran but handed back no function table.
    NullDescriptorTable,
    /// The entry function handed back a table, copied into this record.
    Resolved(DescriptorTable),
}

/// Stands for the live dynamic-module handle the embedding application
/// keeps; records which binary it maps. The handle must stay alive for
/// as long as any value resolved from the table may be called.
pub struct LibraryHandle {
    pub path: String,
}

/// An opened external-UI module together with the function table
/// resolved from it.
pub struct ExternalUILibrary {
    pub library: LibraryHandle,
    pub descriptor: DescriptorTable,
}

/// The exact outcome of a load attempt: an open failure wraps the
/// loader's error beside the path; a missing entry symbol or a null
/// table is a descriptor-resolution failure, after which no function
/// table is reachable; only a resolved table yields a library, and it
/// carries that table unchanged beside the handle for this binary.
pub open spec fn load_result_matches(
    ui: &ExternalUI,
    outcome: LoadOutcome,
    r: Result<ExternalUILibrary, LiviExternalUIError>,
) -> bool {
    match outcome {
        LoadOutcome::OpenFailed(msg) => r matches Err(
            LiviExternalUIError::LoadLibraryError(p, e),
        ) && p@ == ui.binary.path@ && e == msg,
        LoadOutcome::MissingEntrySymbol => r matches Err(LiviExternalUIError::LoadDescriptorError),
        LoadOutcome::NullDescriptorTable => r matches Err(
            LiviExternalUIError::LoadDescriptorError,
        ),
        LoadOutcome::Resolved(t) => r matches Ok(lib) && lib.descriptor == t
            && lib.library.path@ == ui.binary.path@,
    }
}

impl ExternalUILibrary {
    fn load(ui: &ExternalUI, outcome: LoadOutcome) -> (r: Result<
        ExternalUILibrary,
        LiviExternalUIError,
    >)
        ensures
            load_result_matches(ui, outcome, r),
    {
        match outcome {
            LoadOutcome::OpenFailed(msg) => Err(
                LiviExternalUIError::LoadLibraryError(ui.binary.path.clone(), msg),
            ),
            LoadOutcome::MissingEntrySymbol => Err(LiviExternalUIError::LoadDescriptorError),
            LoadOutcome::NullDescriptorTable => Err(LiviExternalUIError::LoadDescriptorError),
            LoadOutcome::Resolved(t) => Ok(
                ExternalUILibrary {
                    library: LibraryHandle { path: ui.binary.path.clone() },
                    descriptor: t,
                },
            ),
        }
    }
}

} // verus!
