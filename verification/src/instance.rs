//! Instantiation of an external UI across the foreign ABI, and the two
//! host-side objects that come out of it.
//!
//! `ExternalUILibrary::instantiate` performs every decision the foreign
//! call depends on — is an instantiate entry present, is the plugin's
//! URI known, do the strings convert to null-terminated buffers — and
//! marshals the call's arguments into an `InstantiationRequest` of plain
//! bytes. The embedding application performs the call itself and reports
//! what came back as an `InstantiateOutcome`; `complete_instantiation`
//! then builds the `ExternalUIInstance` the host keeps and the
//! `ExternalUIInstanceRunner` the UI thread drives.
//!
//! Teardown order is enforced by contract: the instance can be closed
//! only once the runner is stopped, because the host-callback record the
//! instance owns must outlive every foreign call the UI may still make.

use crate::bridge::{sat_add, ControlChannel, ExternalUIControlMessage};
use crate::external_ui::{ExternalUI, ExternalUILibrary, LiviExternalUIError};
use vstd::prelude::*;
use vstd::string::StringSliceAdditionalSpecFns;

verus! {

/// Whether a terminator byte occurs inside `bytes` — no C string can
/// carry one.
pub open spec fn has_interior_nul(bytes: Seq<u8>) -> bool {
    exists|i: int| 0 <= i < bytes.len() && bytes[i] == 0
}

/// `bytes` with the terminator the foreign ABI wants appended.
pub open spec fn nul_terminated(bytes: Seq<u8>) -> Seq<u8> {
    bytes.push(0)
}

/// Convert a host-owned string into the null-terminated buffer the
/// foreign ABI wants, or nothing when the string itself carries a
/// terminator byte and so cannot cross as a C string.
pub fn to_nul_terminated(s: &str) -> (r: Option<Vec<u8>>)
    ensures
        has_interior_nul(s.spec_bytes()) <==> r is None,
        r matches Some(v) ==> v@ == nul_terminated(s.spec_bytes()),
{
    let bytes: &[u8] = s.as_bytes();
    let n: usize = bytes.len();
    let mut out: Vec<u8> = Vec::new();
    let mut i: usize = 0;
    while i < n
        invariant
            i <= n,
            bytes@ == s.spec_bytes(),
            n == s.spec_bytes().len(),
            out@ == s.spec_bytes().take(i as int),
            forall|j: int| 0 <= j < i ==> #[trigger] s.spec_bytes()[j] != 0,
        decreases n - i,
    {
        let b: u8 = *vstd::slice::slice_index_get(bytes, i);
        if b == 0 {
            return None;
        }
        out.push(b);
        proof {
            assert(s.spec_bytes().take(i as int).push(s.spec_bytes()[i as int]) =~= s.spec_bytes()
                .take(i + 1));
        }
        i = i + 1;
    }
    proof {
        assert(s.spec_bytes().take(n as int) =~= s.spec_bytes());
    }
    out.push(0);
    Some(out)
}

/// The label the host-callback record shows for the plugin, as a
/// null-terminated buffer: the bytes of "test" and the terminator.
pub open spec fn host_label_bytes() -> Seq<u8> {
    seq![116u8, 101u8, 115u8, 116u8, 0u8]
}

/// The host-callback record handed to the foreign UI at instantiation.
/// It must stay alive, unmoved, for the whole life of the UI instance,
/// so the instance owns it.
pub struct HostCallbackRecord {
    /// Whether a "UI closed" notification was installed. This host
    /// never installs one.
    pub ui_closed_set: bool,
    /// Human-readable plugin label, null-terminated.
    pub plugin_human_id: Vec<u8>,
}

fn make_host_record() -> (r: HostCallbackRecord)
    ensures
        !r.ui_closed_set,
        r.plugin_human_id@ == host_label_bytes(),
{
    let mut label: Vec<u8> = Vec::new();
    label.push(116u8);
    label.push(101u8);
    label.push(115u8);
    label.push(116u8);
    label.push(0u8);
    proof {
        assert(label@ =~= host_label_bytes());
    }
    HostCallbackRecord { ui_closed_set: false, plugin_human_id: label }
}

/// The two capability records this host offers the UI.
#[derive(Clone, Copy, PartialEq, Eq, Structural, Debug)]
pub enum FeatureKind {
    /// Carries the plugin's opaque native instance handle.
    InstanceAccess,
    /// Carries the address of the host-callback record.
    HostCallback,
}

/// The order the feature records take in the feature array. Only the
/// terminator's place is mandated — it comes after these, appended at
/// the ABI boundary — but the order is kept stable.
pub open spec fn feature_order() -> Seq<FeatureKind> {
    seq![FeatureKind::InstanceAccess, FeatureKind::HostCallback]
}

/// Build the feature list in its fixed order.
pub fn build_feature_list() -> (r: Vec<FeatureKind>)
    ensures
        r@ == feature_order(),
{
    let mut v: Vec<FeatureKind> = Vec::new();
    v.push(FeatureKind::InstanceAccess);
    v.push(FeatureKind::HostCallback);
    proof {
        assert(v@ =~= feature_order());
    }
    v
}

/// What the instantiator reads from the live plugin instance the host
/// holds: its URI, where the host can give one. The opaque native
/// handle itself stays with the embedding application, which places it
/// in the instance-access feature record at the boundary.
pub struct PluginInstanceInfo {
    pub uri: Option<String>,
}

/// Everything the foreign instantiate call needs, marshalled to plain
/// values: both strings as null-terminated buffers, the feature records
/// in their fixed order, and the host-callback record that must outlive
/// the UI.
pub struct InstantiationRequest {
    pub plugin_uri_cstr: Vec<u8>,
    pub bundle_path_cstr: Vec<u8>,
    pub features: Vec<FeatureKind>,
    pub host: HostCallbackRecord,
}

impl ExternalUILibrary {
    /// Decide and marshal the instantiate call. Fails — without the
    /// foreign call ever being attempted — when the function table has
    /// no instantiate entry, when the plugin's URI is unavailable, or
    /// when either string cannot become a C string; each failure names
    /// its reason. On success the request pins both buffers, the
    /// feature order, and the host record exactly.
    pub fn instantiate(&self, ui: &ExternalUI, plugin: &PluginInstanceInfo) -> (r: Result<
        InstantiationRequest,
        LiviExternalUIError,
    >)
        ensures
            !self.descriptor.has_instantiate ==> ({
                &&& r matches Err(LiviExternalUIError::InstantiateError(m))
                &&& m@ == "No instantiation function available"@
            }),
            self.descriptor.has_instantiate && plugin.uri is None ==> ({
                &&& r matches Err(LiviExternalUIError::InstantiateError(m))
                &&& m@ == "Could not get plugin URI"@
            }),
            self.descriptor.has_instantiate && plugin.uri is Some && (has_interior_nul(
                vstd::utf8::encode_utf8(plugin.uri.unwrap()@),
            ) || has_interior_nul(vstd::utf8::encode_utf8(ui.bundle.path@))) ==> ({
                &&& r matches Err(LiviExternalUIError::InstantiateError(m))
                &&& m@ == "C string construction error"@
            }),
            self.descriptor.has_instantiate && plugin.uri is Some && !has_interior_nul(
                vstd::utf8::encode_utf8(plugin.uri.unwrap()@),
            ) && !has_interior_nul(vstd::utf8::encode_utf8(ui.bundle.path@)) ==> ({
                &&& r matches Ok(req)
                &&& req.plugin_uri_cstr@ == nul_terminated(
                    vstd::utf8::encode_utf8(plugin.uri.unwrap()@),
                )
                &&& req.bundle_path_cstr@ == nul_terminated(
                    vstd::utf8::encode_utf8(ui.bundle.path@),
                )
                &&& req.features@ == feature_order()
                &&& !req.host.ui_closed_set
                &&& req.host.plugin_human_id@ == host_label_bytes()
            }),
    {
        let host = make_host_record();
        if !self.descriptor.has_instantiate {
            return Err(
                LiviExternalUIError::InstantiateError(
                    String::from_str("No instantiation function available"),
                ),
            );
        }
        let uri: &String = match &plugin.uri {
            Some(u) => u,
            None => {
                return Err(
                    LiviExternalUIError::InstantiateError(
                        String::from_str("Could not get plugin URI"),
                    ),
                );
            },
        };
        let plugin_uri_cstr = match to_nul_terminated(uri.as_str()) {
            Some(v) => v,
            None => {
                return Err(
                    LiviExternalUIError::InstantiateError(
                        String::from_str("C string construction error"),
                    ),
                );
            },
        };
        let bundle_path_cstr = match to_nul_terminated(ui.bundle.path.as_str()) {
            Some(v) => v,
            None => {
                return Err(
                    LiviExternalUIError::InstantiateError(
                        String::from_str("C string construction error"),
                    ),
                );
            },
        };
        let features = build_feature_list();
        Ok(InstantiationRequest { plugin_uri_cstr, bundle_path_cstr, features, host })
    }
}

/// Plain record of which lifecycle entries the widget handed back by
/// the foreign instantiate call provides. An absent entry makes the
/// matching lifecycle call a typed error, never a null-pointer fault.
#[derive(Clone, Copy, PartialEq, Eq, Structural, Debug)]
pub struct WidgetTable {
    pub has_show: bool,
    pub has_hide: bool,
    pub has_run: bool,
}

/// What the foreign instantiate call handed back, as plain
/// observations: the widget's lifecycle entries, and whether an opaque
/// UI handle came back at all.
#[derive(Clone, Copy, PartialEq, Eq, Structural, Debug)]
pub struct InstantiateOutcome {
    pub widget: WidgetTable,
    pub ui_handle_present: bool,
}

/// The host-facing half of a live external UI: it owns the
/// host-callback record (which must outlive every foreign callback) and
/// the consumer end of the control-message channel.
pub struct ExternalUIInstance {
    pub host: HostCallbackRecord,
    pub ui_handle_present: bool,
    pub control_receiver: ControlChannel,
}

/// The UI-thread half: it knows which lifecycle entries the widget
/// provides, and whether the UI side has been stopped.
pub struct ExternalUIInstanceRunner {
    pub widget: WidgetTable,
    pub stopped: bool,
}

/// Wire up the two halves after the foreign call returned: the instance
/// keeps the host record and a fresh, empty, open channel; the runner
/// takes the widget's table, not yet stopped.
pub fn complete_instantiation(req: InstantiationRequest, outcome: InstantiateOutcome) -> (r: (
    ExternalUIInstance,
    ExternalUIInstanceRunner,
))
    ensures
        r.0.host == req.host,
        r.0.ui_handle_present == outcome.ui_handle_present,
        r.0.control_receiver.pending@ == Seq::<ExternalUIControlMessage>::empty(),
        r.0.control_receiver.consumer_alive,
        r.0.control_receiver.dropped_sends == 0,
        r.1.widget == outcome.widget,
        !r.1.stopped,
{
    let instance = ExternalUIInstance {
        host: req.host,
        ui_handle_present: outcome.ui_handle_present,
        control_receiver: ControlChannel::new(),
    };
    let runner = ExternalUIInstanceRunner { widget: outcome.widget, stopped: false };
    (instance, runner)
}

impl ExternalUIInstanceRunner {
    /// Decide the show call: it succeeds iff the widget's table carries
    /// a show entry; the embedding application then makes the foreign
    /// call itself.
    pub fn show(&self) -> (r: Result<(), LiviExternalUIError>)
        ensures
            self.widget.has_show ==> r is Ok,
            !self.widget.has_show ==> ({
                &&& r matches Err(LiviExternalUIError::InstantiateError(m))
                &&& m@ == "No show function available"@
            }),
    {
        if self.widget.has_show {
            Ok(())
        } else {
            Err(
                LiviExternalUIError::InstantiateError(
                    String::from_str("No show function available"),
                ),
            )
        }
    }

    /// Decide the hide call, like `show`.
    pub fn hide_ui(&self) -> (r: Result<(), LiviExternalUIError>)
        ensures
            self.widget.has_hide ==> r is Ok,
            !self.widget.has_hide ==> ({
                &&& r matches Err(LiviExternalUIError::InstantiateError(m))
                &&& m@ == "No hide function available"@
            }),
    {
        if self.widget.has_hide {
            Ok(())
        } else {
            Err(
                LiviExternalUIError::InstantiateError(
                    String::from_str("No hide function available"),
                ),
            )
        }
    }

    /// One pump of the UI's event loop. The widget may push control
    /// changes synchronously during the call — `emitted`, in the order
    /// the widget fired them — and they land at the tail of the
    /// instance's channel in exactly that order. With the instance
    /// already closed, every message is dropped and counted instead;
    /// the call still succeeds, since the UI thread must never fail
    /// because the host stopped listening.
    pub fn run(&self, instance: &mut ExternalUIInstance, emitted: Vec<
        ExternalUIControlMessage,
    >) -> (r: Result<(), LiviExternalUIError>)
        ensures
            self.widget.has_run ==> r is Ok,
            !self.widget.has_run ==> ({
                &&& r matches Err(LiviExternalUIError::InstantiateError(m))
                &&& m@ == "No run function available"@
                &&& *final(instance) == *old(instance)
            }),
            final(instance).host == old(instance).host,
            final(instance).ui_handle_present == old(instance).ui_handle_present,
            final(instance).control_receiver.consumer_alive == old(
                instance,
            ).control_receiver.consumer_alive,
            self.widget.has_run && old(instance).control_receiver.consumer_alive ==> ({
                &&& final(instance).control_receiver.pending@ == old(
                    instance,
                ).control_receiver.pending@ + emitted@
                &&& final(instance).control_receiver.dropped_sends == old(
                    instance,
                ).control_receiver.dropped_sends
            }),
            self.widget.has_run && !old(instance).control_receiver.consumer_alive ==> ({
                &&& final(instance).control_receiver.pending@ == old(
                    instance,
                ).control_receiver.pending@
                &&& final(instance).control_receiver.dropped_sends == sat_add(
                    old(instance).control_receiver.dropped_sends,
                    emitted@.len(),
                )
            }),
    {
        if self.widget.has_run {
            instance.control_receiver.send_all(emitted);
            Ok(())
        } else {
            Err(
                LiviExternalUIError::InstantiateError(
                    String::from_str("No run function available"),
                ),
            )
        }
    }

    /// The teardown barrier on the UI side: once the embedding
    /// application has stopped the UI thread — no further foreign call
    /// will be made through the widget — it marks the runner stopped.
    /// Only then may the instance be closed.
    pub fn stop(&mut self)
        ensures
            final(self).stopped,
            final(self).widget == old(self).widget,
    {
        self.stopped = true;
    }
}

impl ExternalUIInstance {
    /// Drain whatever control messages are currently pending, oldest
    /// first, without waiting for more. An empty channel yields an
    /// empty batch, never an error.
    pub fn pending_ui_control_msgs(&mut self) -> (r: Result<
        Vec<ExternalUIControlMessage>,
        LiviExternalUIError,
    >)
        ensures
            r matches Ok(msgs) && msgs@ == old(self).control_receiver.pending@,
            final(self).control_receiver.pending@ == Seq::<ExternalUIControlMessage>::empty(),
            final(self).control_receiver.consumer_alive == old(self).control_receiver.consumer_alive,
            final(self).control_receiver.dropped_sends == old(self).control_receiver.dropped_sends,
            final(self).host == old(self).host,
            final(self).ui_handle_present == old(self).ui_handle_present,
    {
        Ok(self.control_receiver.drain())
    }

    /// Close the host's end of the UI session. Requiring a stopped
    /// runner encodes the teardown order: while the UI thread may still
    /// call back, the host-callback record and the channel this
    /// instance owns must stay alive, so the instance cannot be closed
    /// first.
    pub fn close(&mut self, runner: &ExternalUIInstanceRunner)
        requires
            runner.stopped,
        ensures
            !final(self).control_receiver.consumer_alive,
            final(self).control_receiver.pending@ == Seq::<ExternalUIControlMessage>::empty(),
            final(self).control_receiver.dropped_sends == old(self).control_receiver.dropped_sends,
            final(self).host == old(self).host,
            final(self).ui_handle_present == old(self).ui_handle_present,
    {
        self.control_receiver.close();
    }
}

} // verus!
