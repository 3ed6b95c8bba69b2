//! The exporter's shared gauge state: three gauge families, each carrying
//! the label pair `(server, network_operator)`, and the exposition text
//! rendered from them.
//!
//! The gauge families belong to the metrics library and are held opaquely.
//! The library finds a family's child gauge by the bare 64-bit hash of the
//! label values' bytes written back to back, never comparing the values on
//! a hit, so a child is modeled under that child key, together with the
//! label pair it was created with: two pairs with the same child key — in
//! particular two pairs whose concatenations agree — share one child, and
//! that child keeps the labels of whichever pair created it.  A child
//! always reflects the most recent successful measurement for its key, and
//! children are never removed.

use vstd::prelude::*;
use vstd::pervasive::unreached;
use crate::bbk::{BbkError, BbkOutput, BbkOutputModel};

verus! {

#[verifier::external_type_specification]
#[verifier::external_body]
pub struct ExRegistry(prometheus::Registry);

#[verifier::external_type_specification]
#[verifier::external_body]
pub struct ExPrometheusError(prometheus::Error);

/// One gauge family of the metrics library, with two variable labels.
/// (`prometheus::GaugeVec` instantiates a generic whose type parameters
/// live in private modules, so the handle is held opaquely.)
#[verifier::external_body]
pub struct GaugeFamily {
    vec: prometheus::GaugeVec,
}

/// The key under which the metrics library files a family's child for a
/// pair of label values: the unseeded 64-bit FNV-1a hash of the UTF-8
/// bytes of `server`, then of `operator`, with no separator — a function
/// of the two values alone.
pub uninterp spec fn child_key(server: Seq<char>, operator: Seq<char>) -> u64;

/// What a gauge family holds: for each child, keyed by the
/// [`child_key`] of the label values it was created with, the stored
/// label pair and the IEEE-754 bits of the current gauge value.
pub uninterp spec fn gauge_values(g: GaugeFamily) -> Map<u64, ((Seq<char>, Seq<char>), u64)>;

/// How many variable labels the family was created with.
pub uninterp spec fn gauge_label_arity(g: GaugeFamily) -> nat;

/// The family's metric name and help text, as its descriptor carries them.
pub uninterp spec fn gauge_desc(g: GaugeFamily) -> (Seq<char>, Seq<char>);

/// A family's children after setting the gauge at a label pair: the child
/// under the pair's [`child_key`] gets the new bits; a child that already
/// held that key keeps its stored label pair, since the library looks
/// children up by the key alone.
pub open spec fn children_set(
    children: Map<u64, ((Seq<char>, Seq<char>), u64)>,
    server: Seq<char>,
    operator: Seq<char>,
    bits: u64,
) -> Map<u64, ((Seq<char>, Seq<char>), u64)> {
    let key = child_key(server, operator);
    let labels = if children.dom().contains(key) {
        children[key].0
    } else {
        (server, operator)
    };
    children.insert(key, (labels, bits))
}

impl GaugeFamily {
    /// Relies on `GaugeVec::new`: a fresh gauge family with the given name,
    /// help text and two variable labels holds no children yet, and its
    /// descriptor records the name and help verbatim.
    #[verifier::external_body]
    fn new_family(name: &str, help: &str, label1: &str, label2: &str) -> (r: Result<GaugeFamily, prometheus::Error>)
        ensures
            (r matches Ok(g) ==> gauge_values(g) == Map::<
                u64,
                ((Seq<char>, Seq<char>), u64),
            >::empty() && gauge_label_arity(g) == 2 && gauge_desc(g) == (name@, help@)),
    {
        match prometheus::GaugeVec::new(prometheus::core::Opts::new(name, help), &[label1, label2])
        {
            Ok(vec) => Ok(GaugeFamily { vec }),
            Err(e) => Err(e),
        }
    }

    /// Relies on `Registry::register`: registering fails (with
    /// `Error::AlreadyReg`) when a collector with the same descriptors is
    /// already registered on this registry.
    #[verifier::external_body]
    fn register_on(&self, registry: &prometheus::Registry) -> (r: Result<(), prometheus::Error>) {
        registry.register(Box::new(self.vec.clone()))
    }

    /// Relies on `MetricVec::with_label_values` and `GenericGauge::set`:
    /// the child gauge is found by the bare FNV-1a-64 hash of the label
    /// values' bytes written back to back (created with these labels if
    /// missing, keeping its original labels otherwise) and set to the
    /// value whose IEEE-754 bits are given.  `with_label_values` panics unless it gets exactly as many
    /// label values as the family was created with, hence the arity
    /// precondition.  The value type is spelled as the library's gauge
    /// value type, the 64-bit floating-point type.
    #[verifier::external_body]
    fn set_value(&mut self, server: &str, operator: &str, bits: u64)
        requires
            gauge_label_arity(*old(self)) == 2,
        ensures
            gauge_values(*final(self)) == children_set(
                gauge_values(*old(self)),
                server@,
                operator@,
                bits,
            ),
            gauge_values(*final(self)).dom().contains(child_key(server@, operator@)),
            gauge_label_arity(*final(self)) == gauge_label_arity(*old(self)),
            gauge_desc(*final(self)) == gauge_desc(*old(self)),
    {
        self.vec.with_label_values(&[server, operator]).set(
            <<prometheus::core::AtomicF64 as prometheus::core::Atomic>::T>::from_bits(bits),
        );
    }
}

/// Relies on `Registry::new`: a fresh registry with no collectors.
#[verifier::external_body]
fn new_registry() -> prometheus::Registry {
    prometheus::Registry::new()
}

/// Relies on `prometheus::TEXT_FORMAT`: the content type of the text
/// exposition format.
#[verifier::external_body]
pub(crate) fn text_format() -> (r: &'static str)
    ensures
        r@ == "text/plain; version=0.0.4"@,
{
    prometheus::TEXT_FORMAT
}

/// The mathematical model of one gauge family: its metric name, its help
/// text, and its children.
pub struct GaugeFamilyModel {
    pub name: Seq<char>,
    pub help: Seq<char>,
    pub children: Map<u64, ((Seq<char>, Seq<char>), u64)>,
}

impl GaugeFamilyModel {
    /// The family after one gauge update, per [`children_set`].
    pub open spec fn set_at(self, server: Seq<char>, operator: Seq<char>, bits: u64) -> GaugeFamilyModel {
        GaugeFamilyModel {
            name: self.name,
            help: self.help,
            children: children_set(self.children, server, operator, bits),
        }
    }
}

/// The mathematical model of a [`GaugeSet`]: the three families.
pub struct GaugeSnapshot {
    pub download: GaugeFamilyModel,
    pub upload: GaugeFamilyModel,
    pub ping: GaugeFamilyModel,
}

impl GaugeSnapshot {
    /// The snapshot after recording one measurement: all three families
    /// updated at the record's label pair.
    pub open spec fn with_record(self, rec: BbkOutputModel) -> GaugeSnapshot {
        GaugeSnapshot {
            download: self.download.set_at(rec.server, rec.isp, rec.download),
            upload: self.upload.set_at(rec.server, rec.isp, rec.upload),
            ping: self.ping.set_at(rec.server, rec.isp, rec.ping),
        }
    }
}

/// The text exposition of a snapshot's three gauge families: families in
/// metric-name order, each with its `# HELP` and `# TYPE` lines, then one
/// sample per child, sorted by label values, labels in name order.  The
/// registry sorts deterministically and the encoder formats each value
/// from its bits alone, so the text depends on the snapshot alone.
pub uninterp spec fn rendered_text(snapshot: GaugeSnapshot) -> Seq<char>;

/// The process-wide gauge state: a download-speed family (Mbit/s), an
/// upload-speed family (Mbit/s) and a latency family (ms), keyed by
/// `(server, network_operator)`.  The families are registered on the
/// registry the caller provides — registering there a second time fails
/// fast — and also on a private registry of the set's own, which holds
/// exactly the three families and from which the exposition is rendered.
pub struct GaugeSet {
    exposition: prometheus::Registry,
    download: GaugeFamily,
    upload: GaugeFamily,
    ping: GaugeFamily,
}

/// Relies on `Registry::gather` and `TextEncoder::encode_to_string`:
/// `gather` collects each family's children, prunes empty families, sorts
/// families by name and samples lexicographically by label values; the
/// encoder writes `# HELP`/`# TYPE` lines and one sample per child to an
/// infallible `String` writer, and takes no error or panic path on a
/// gauge family.  `gs.exposition` is private and holds exactly the three
/// gauge families, so encoding always succeeds and the text is the
/// rendering of the snapshot.
#[verifier::external_body]
fn render_exposition(gs: &GaugeSet) -> (r: Option<String>)
    ensures
        r is Some,
        (r matches Some(s) ==> s@ == rendered_text(gs@)),
{
    prometheus::TextEncoder::new().encode_to_string(&gs.exposition.gather()).ok()
}

impl View for GaugeSet {
    type V = GaugeSnapshot;

    closed spec fn view(&self) -> GaugeSnapshot {
        GaugeSnapshot {
            download: GaugeFamilyModel {
                name: gauge_desc(self.download).0,
                help: gauge_desc(self.download).1,
                children: gauge_values(self.download),
            },
            upload: GaugeFamilyModel {
                name: gauge_desc(self.upload).0,
                help: gauge_desc(self.upload).1,
                children: gauge_values(self.upload),
            },
            ping: GaugeFamilyModel {
                name: gauge_desc(self.ping).0,
                help: gauge_desc(self.ping).1,
                children: gauge_values(self.ping),
            },
        }
    }
}

impl GaugeSet {
    /// The three families carry the two labels they are updated with.
    pub closed spec fn wf(&self) -> bool {
        gauge_label_arity(self.download) == 2 && gauge_label_arity(self.upload) == 2
            && gauge_label_arity(self.ping) == 2
    }

    /// Creates the three gauge families and registers them on the given
    /// registry.  Fails with [`BbkError::RegistrationError`] when a family
    /// cannot be created or registered — in particular when the same
    /// families are already registered there, so starting the exporter
    /// twice on one registry fails fast.
    pub fn new(registry: &prometheus::Registry) -> (r: Result<GaugeSet, BbkError>)
        ensures
            (r matches Ok(g) ==> g.wf() && g@.download == (GaugeFamilyModel {
                name: "bbk_download_speed_mbps"@,
                help: "Download speed in Mbit/s"@,
                children: Map::<u64, ((Seq<char>, Seq<char>), u64)>::empty(),
            }) && g@.upload == (GaugeFamilyModel {
                name: "bbk_upload_speed_mbps"@,
                help: "Upload speed in Mbit/s"@,
                children: Map::<u64, ((Seq<char>, Seq<char>), u64)>::empty(),
            }) && g@.ping == (GaugeFamilyModel {
                name: "bbk_latency_ms"@,
                help: "Latency to test server in ms"@,
                children: Map::<u64, ((Seq<char>, Seq<char>), u64)>::empty(),
            })),
            (r matches Err(e) ==> e == BbkError::RegistrationError),
    {
        let download = match GaugeFamily::new_family(
            "bbk_download_speed_mbps",
            "Download speed in Mbit/s",
            "server",
            "network_operator",
        ) {
            Ok(g) => g,
            Err(_) => {
                return Err(BbkError::RegistrationError);
            },
        };
        let upload = match GaugeFamily::new_family(
            "bbk_upload_speed_mbps",
            "Upload speed in Mbit/s",
            "server",
            "network_operator",
        ) {
            Ok(g) => g,
            Err(_) => {
                return Err(BbkError::RegistrationError);
            },
        };
        let ping = match GaugeFamily::new_family(
            "bbk_latency_ms",
            "Latency to test server in ms",
            "server",
            "network_operator",
        ) {
            Ok(g) => g,
            Err(_) => {
                return Err(BbkError::RegistrationError);
            },
        };
        if download.register_on(registry).is_err() {
            return Err(BbkError::RegistrationError);
        }
        if upload.register_on(registry).is_err() {
            return Err(BbkError::RegistrationError);
        }
        if ping.register_on(registry).is_err() {
            return Err(BbkError::RegistrationError);
        }
        let exposition = new_registry();
        if download.register_on(&exposition).is_err() {
            return Err(BbkError::RegistrationError);
        }
        if upload.register_on(&exposition).is_err() {
            return Err(BbkError::RegistrationError);
        }
        if ping.register_on(&exposition).is_err() {
            return Err(BbkError::RegistrationError);
        }
        Ok(GaugeSet { exposition, download, upload, ping })
    }

    /// Records one successful measurement: each family's gauge at the
    /// record's `(server, isp)` label pair is set to the record's value.
    /// Values are absolute: a later measurement for the same key
    /// overwrites the earlier one, and no other child is touched.
    pub fn update(&mut self, rec: &BbkOutput)
        requires
            old(self).wf(),
        ensures
            final(self).wf(),
            final(self)@ == old(self)@.with_record(rec@),
    {
        self.download.set_value(rec.server.as_str(), rec.isp.as_str(), rec.download);
        self.upload.set_value(rec.server.as_str(), rec.isp.as_str(), rec.upload);
        self.ping.set_value(rec.server.as_str(), rec.isp.as_str(), rec.ping);
    }

    /// The current state of the three families in the text exposition
    /// format.
    pub fn render(&self) -> (r: String)
        ensures
            r@ == rendered_text(self@),
    {
        match render_exposition(self) {
            Some(s) => s,
            None => unreached(),
        }
    }
}

} // verus!
