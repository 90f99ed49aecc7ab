//! Top-level UI discovery: classify every UI entry a plugin declares.
//!
//! Each entry is classified on its own: the one supported external kind
//! becomes `UI::External` with the paths loading needs, every other kind
//! becomes `UI::Unsupported` carrying its identifying URI for
//! diagnostics. Collection is all-or-nothing: a supported entry whose
//! metadata cannot be inspected fails the whole discovery call — a
//! deliberate simplification; a best-effort policy with per-entry
//! diagnostics would be equally defensible.

use crate::external_ui::{
    declares_class, external_ui_widget_uri, ExternalUI, ExternalUIWorld, LiviExternalUIError,
    UiEntryInfo,
};
use vstd::prelude::*;

verus! {

/// One classified UI entry.
pub enum UI {
    /// The supported external kind, ready for loading.
    External(ExternalUI),
    /// Any other kind, with its identifying URI (or a placeholder).
    Unsupported(String),
}

/// Discovery-level error: for now only the external-UI subsystem can
/// fail a discovery call.
#[derive(Debug)]
pub enum LiviUIError {
    LiviExternalUIError(LiviExternalUIError),
}

impl LiviUIError {
    /// The human-readable description of this error.
    pub open spec fn spec_message(&self) -> Seq<char> {
        match self {
            LiviUIError::LiviExternalUIError(e) => "External UI error: "@ + e.spec_message(),
        }
    }

    pub fn message(&self) -> (r: String)
        ensures
            r@ == self.spec_message(),
    {
        match self {
            LiviUIError::LiviExternalUIError(e) => {
                let inner = e.message();
                String::from_str("External UI error: ").concat(inner.as_str())
            },
        }
    }
}

/// Whether an entry declares the one supported capability class.
pub open spec fn is_supported_entry(e: UiEntryInfo) -> bool {
    declares_class(e.classes@, external_ui_widget_uri())
}

/// Whether the metadata of an entry resolves to the two paths loading
/// needs.
pub open spec fn entry_inspectable(e: UiEntryInfo) -> bool {
    e.binary is Some && e.bundle is Some
}

/// The URI an unsupported entry is reported under: its own, or a
/// placeholder when none resolves.
pub open spec fn unsupported_label(e: UiEntryInfo) -> Seq<char> {
    match e.uri {
        Some(u) => u@,
        None => "unknown"@,
    }
}

/// How one entry must come out of classification: a supported entry as
/// `External` carrying exactly its own two paths, any other as
/// `Unsupported` carrying its own label. A predicate of the single
/// entry and its result alone.
pub open spec fn classified_as(e: UiEntryInfo, u: UI) -> bool {
    if is_supported_entry(e) {
        {
            &&& entry_inspectable(e)
            &&& u matches UI::External(x)
            &&& e.binary matches Some(b) && x.binary == b
            &&& e.bundle matches Some(d) && x.bundle == d
        }
    } else {
        u matches UI::Unsupported(s) && s@ == unsupported_label(e)
    }
}

/// Classification is a property of the entry alone: the same entry is
/// classified the same way wherever it stands and whatever entries
/// stand beside it — classifying one entry neither reads nor changes
/// its siblings.
pub proof fn lemma_classification_independent(
    s1: Seq<UiEntryInfo>,
    s2: Seq<UiEntryInfo>,
    i: int,
    j: int,
    u: UI,
)
    requires
        0 <= i < s1.len(),
        0 <= j < s2.len(),
        s1[i] == s2[j],
    ensures
        classified_as(s1[i], u) == classified_as(s2[j], u),
{
}

/// Classify every UI entry the plugin declares. A plugin that declares
/// none (`None`, or an empty list) yields an empty sequence, not an
/// error. Each entry is classified on its own; the call fails — with
/// the inspection failure wrapped — exactly when some supported entry's
/// metadata lacks the paths loading needs.
pub fn plugin_uis(entries: Option<Vec<UiEntryInfo>>) -> (r: Result<Vec<UI>, LiviUIError>)
    ensures
        entries is None ==> (r matches Ok(v) && v@.len() == 0),
        entries matches Some(es) ==> {
            &&& (r is Ok <==> (forall|i: int|
                0 <= i < es@.len() && is_supported_entry(#[trigger] es@[i])
                    ==> entry_inspectable(es@[i])))
            &&& (r matches Ok(v) ==> v@.len() == es@.len() && (forall|i: int|
                0 <= i < es@.len() ==> classified_as(es@[i], #[trigger] v@[i])))
            &&& (r is Err ==> r matches Err(
                LiviUIError::LiviExternalUIError(LiviExternalUIError::FailedToInspect),
            ))
        },
{
    let ui_world = ExternalUIWorld::new();
    let ghost gentries = entries;
    let mut es = match entries {
        None => {
            return Ok(Vec::new());
        },
        Some(es) => es,
    };
    let ghost all = es@;
    proof {
        assert(gentries matches Some(v0) && v0@ == all);
    }
    let n = es.len();
    let mut out: Vec<UI> = Vec::new();
    let mut i: usize = 0;
    while i < n
        invariant
            i <= n,
            n == all.len(),
            gentries == entries,
            gentries matches Some(v0) && v0@ == all,
            es@ == all.skip(i as int),
            out@.len() == i,
            ui_world.external_ui_uri@ == external_ui_widget_uri(),
            forall|j: int| 0 <= j < i ==> classified_as(all[j], #[trigger] out@[j]),
            forall|j: int|
                0 <= j < i && is_supported_entry(#[trigger] all[j]) ==> entry_inspectable(all[j]),
        decreases n - i,
    {
        let e = es.remove(0);
        proof {
            assert(all.skip(i as int)[0] == all[i as int]);
            assert(all.skip(i as int).remove(0) =~= all.skip(i + 1));
        }
        let ghost ge = e;
        if ExternalUI::is_external_ui(&ui_world, &e) {
            match ExternalUI::from_ui(&ui_world, e) {
                Ok(x) => out.push(UI::External(x)),
                Err(err) => {
                    proof {
                        assert(all[i as int] == ge);
                        assert(is_supported_entry(all[i as int]));
                        assert(!entry_inspectable(all[i as int]));
                    }
                    return Err(LiviUIError::LiviExternalUIError(err));
                },
            }
        } else {
            let label = match e.uri {
                Some(u) => u,
                None => String::from_str("unknown"),
            };
            out.push(UI::Unsupported(label));
        }
        i = i + 1;
    }
    Ok(out)
}

} // verus!
