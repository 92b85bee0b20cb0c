//! The device registry: the catalog of supported models, the ports that are
//! present, and the current selection of model and port.

use vstd::prelude::*;
use vstd::string::*;

use crate::drivers::{Desc, DescView, Port, PortType, PortView};
use crate::text::same_text;

verus! {

/// What a model allows. A model that can only be erased offers no download.
#[derive(Copy, Clone, Debug, PartialEq, Eq, Structural)]
pub struct Capability {
    pub can_erase: bool,
    pub can_erase_only: bool,
}

/// Mathematical value of a [`Device`].
pub struct DeviceView {
    pub desc: DescView,
    pub capability: Capability,
}

/// One catalog entry: a model and what it allows.
#[derive(Debug, PartialEq, Eq)]
pub struct Device {
    pub desc: Desc,
    pub capability: Capability,
}

impl View for Device {
    type V = DeviceView;

    open spec fn view(&self) -> DeviceView {
        DeviceView { desc: self.desc@, capability: self.capability }
    }
}

/// Mathematical value of a [`HardwarePort`].
pub struct HardwarePortView {
    pub port: PortView,
    pub kind: PortType,
}

/// A port found on the machine, with the transport it speaks.
#[derive(Debug, PartialEq, Eq)]
pub struct HardwarePort {
    pub port: Port,
    pub kind: PortType,
}

impl View for HardwarePort {
    type V = HardwarePortView;

    open spec fn view(&self) -> HardwarePortView {
        HardwarePortView { port: self.port@, kind: self.kind }
    }
}

/// Mathematical value of a [`Selection`].
pub struct SelectionView {
    pub model: Seq<char>,
    pub port: PortView,
}

/// A model together with the present port it is to be driven through: what a
/// driver is opened on.
#[derive(Debug, PartialEq, Eq)]
pub struct Selection {
    pub model: String,
    pub port: Port,
}

impl View for Selection {
    type V = SelectionView;

    open spec fn view(&self) -> SelectionView {
        SelectionView { model: self.model@, port: self.port@ }
    }
}

impl Clone for Selection {
    fn clone(&self) -> (r: Self)
        ensures
            r@ == self@,
    {
        Selection { model: self.model.clone(), port: self.port.clone() }
    }
}

/// The values of a sequence of ports.
pub open spec fn ports_view(s: Seq<Port>) -> Seq<PortView> {
    s.map_values(|p: Port| p@)
}

/// The values of a sequence of descriptions.
pub open spec fn descs_view(s: Seq<Desc>) -> Seq<DescView> {
    s.map_values(|d: Desc| d@)
}

/// The values of a sequence of catalog entries.
pub open spec fn devices_view(s: Seq<Device>) -> Seq<DeviceView> {
    s.map_values(|d: Device| d@)
}

/// The values of a sequence of present ports.
pub open spec fn hardware_view(s: Seq<HardwarePort>) -> Seq<HardwarePortView> {
    s.map_values(|h: HardwarePort| h@)
}

/// The first catalog entry with the given id, if there is one.
pub open spec fn lookup(catalog: Seq<DeviceView>, id: Seq<char>) -> Option<DeviceView>
    decreases catalog.len(),
{
    if catalog.len() == 0 {
        None
    } else if catalog[0].desc.id == id {
        Some(catalog[0])
    } else {
        lookup(catalog.drop_first(), id)
    }
}

/// What the model with the given id allows; `None` for an unknown id.
pub open spec fn capability_of(catalog: Seq<DeviceView>, id: Seq<char>) -> Option<Capability> {
    match lookup(catalog, id) {
        Some(d) => Some(d.capability),
        None => None,
    }
}

/// The descriptions of a catalog, in catalog order.
pub open spec fn catalog_descs(catalog: Seq<DeviceView>) -> Seq<DescView> {
    catalog.map_values(|d: DeviceView| d.desc)
}

/// Whether a model that looks for `kinds` can use a port of kind `kind`.
pub open spec fn supports(kinds: Seq<PortType>, kind: PortType) -> bool {
    kinds.contains(kind)
}

/// The present ports whose kind is among `kinds`, in the order in which they
/// were found.
pub open spec fn compatible_ports(hardware: Seq<HardwarePortView>, kinds: Seq<PortType>) -> Seq<
    PortView,
> {
    hardware.filter(|h: HardwarePortView| supports(kinds, h.kind)).map_values(
        |h: HardwarePortView| h.port,
    )
}

/// The ports that the model with the given id can use right now; `None` for
/// an unknown id.
pub open spec fn ports_for_model(
    catalog: Seq<DeviceView>,
    hardware: Seq<HardwarePortView>,
    id: Seq<char>,
) -> Option<Seq<PortView>> {
    match lookup(catalog, id) {
        Some(d) => Some(compatible_ports(hardware, d.desc.ports)),
        None => None,
    }
}

/// The first port with the given id, if there is one.
pub open spec fn find_port(ports: Seq<PortView>, id: Seq<char>) -> Option<PortView>
    decreases ports.len(),
{
    if ports.len() == 0 {
        None
    } else if ports[0].id == id {
        Some(ports[0])
    } else {
        find_port(ports.drop_first(), id)
    }
}

/// Mathematical value of a [`Manager`].
pub struct ManagerView {
    pub catalog: Seq<DeviceView>,
    pub hardware: Seq<HardwarePortView>,
    pub model: Seq<char>,
    pub port: Seq<char>,
}

impl ManagerView {
    /// The device that the current selection resolves to: the selected model
    /// must be in the catalog, and the selected port must be present and of a
    /// kind that the model can use.
    pub open spec fn device(self) -> Option<SelectionView> {
        match ports_for_model(self.catalog, self.hardware, self.model) {
            Some(ports) => match find_port(ports, self.port) {
                Some(p) => Some(SelectionView { model: self.model, port: p }),
                None => None,
            },
            None => None,
        }
    }
}

/// The registry of supported models and present ports, with the selection.
#[derive(Debug)]
pub struct Manager {
    catalog: Vec<Device>,
    hardware: Vec<HardwarePort>,
    model: String,
    port: String,
}

impl View for Manager {
    type V = ManagerView;

    closed spec fn view(&self) -> ManagerView {
        ManagerView {
            catalog: devices_view(self.catalog@),
            hardware: hardware_view(self.hardware@),
            model: self.model@,
            port: self.port@,
        }
    }
}

/// Whether `kind` occurs in `kinds`.
fn has_kind(kinds: &Vec<PortType>, kind: PortType) -> (r: bool)
    ensures
        r == supports(kinds@, kind),
{
    let mut i: usize = 0;
    while i < kinds.len()
        invariant
            i <= kinds.len(),
            forall|j: int| 0 <= j < i ==> kinds@[j] != kind,
        decreases kinds.len() - i,
    {
        if kinds[i] == kind {
            return true;
        }
        i += 1;
    }
    false
}

/// Position of the first port with the given id.
pub fn port_position(ports: &Vec<Port>, id: &str) -> (r: Option<usize>)
    ensures
        match r {
            Some(i) => i < ports@.len() && find_port(ports_view(ports@), id@) == Some(
                ports@[i as int]@,
            ),
            None => find_port(ports_view(ports@), id@) is None,
        },
{
    let ghost pv = ports_view(ports@);
    let mut i: usize = 0;
    proof {
        assert(pv.skip(0) =~= pv);
    }
    while i < ports.len()
        invariant
            i <= ports@.len(),
            pv == ports_view(ports@),
            find_port(pv, id@) == find_port(pv.skip(i as int), id@),
        decreases ports.len() - i,
    {
        proof {
            assert(pv.skip(i as int).drop_first() =~= pv.skip(i as int + 1));
            assert(pv.skip(i as int)[0] == ports@[i as int]@);
        }
        if same_text(ports[i].id.as_str(), id) {
            return Some(i);
        }
        i += 1;
    }
    None
}

impl Manager {
    /// A registry over the given catalog and present ports, with nothing
    /// selected.
    pub fn new(catalog: Vec<Device>, hardware: Vec<HardwarePort>) -> (r: Self)
        ensures
            r@ == (ManagerView {
                catalog: devices_view(catalog@),
                hardware: hardware_view(hardware@),
                model: Seq::<char>::empty(),
                port: Seq::<char>::empty(),
            }),
    {
        Manager { catalog, hardware, model: String::new(), port: String::new() }
    }

    /// Replace the set of present ports, after the machine's ports were
    /// enumerated anew. The catalog and the selection stay.
    pub fn set_hardware(&mut self, hardware: Vec<HardwarePort>)
        ensures
            final(self)@ == (ManagerView { hardware: hardware_view(hardware@), ..old(self)@ }),
    {
        self.hardware = hardware;
    }

    /// Position of the first catalog entry with the given id.
    fn find_model(&self, id: &str) -> (r: Option<usize>)
        ensures
            match r {
                Some(i) => i < self.catalog@.len() && lookup(self@.catalog, id@) == Some(
                    self.catalog@[i as int]@,
                ),
                None => lookup(self@.catalog, id@) is None,
            },
    {
        let ghost cat = devices_view(self.catalog@);
        let mut i: usize = 0;
        proof {
            assert(cat.skip(0) =~= cat);
        }
        while i < self.catalog.len()
            invariant
                i <= self.catalog@.len(),
                cat == devices_view(self.catalog@),
                lookup(cat, id@) == lookup(cat.skip(i as int), id@),
            decreases self.catalog.len() - i,
        {
            proof {
                assert(cat.skip(i as int).drop_first() =~= cat.skip(i as int + 1));
            }
            if same_text(self.catalog[i].desc.id.as_str(), id) {
                return Some(i);
            }
            i += 1;
        }
        None
    }

    /// The whole catalog, in catalog order, the same on every call.
    pub fn devices_desc(&self) -> (r: Vec<Desc>)
        ensures
            descs_view(r@) == catalog_descs(self@.catalog),
    {
        let mut out: Vec<Desc> = Vec::new();
        let mut i: usize = 0;
        while i < self.catalog.len()
            invariant
                i <= self.catalog@.len(),
                out@.len() == i,
                forall|j: int| 0 <= j < i ==> out@[j]@ == self.catalog@[j].desc@,
            decreases self.catalog.len() - i,
        {
            out.push(self.catalog[i].desc.clone());
            i += 1;
        }
        assert(descs_view(out@) =~= catalog_descs(self@.catalog));
        out
    }

    /// What the model with the given id allows; `None` for an unknown id.
    pub fn device_capability(&self, id: &str) -> (r: Option<Capability>)
        ensures
            r == capability_of(self@.catalog, id@),
    {
        match self.find_model(id) {
            Some(i) => Some(self.catalog[i].capability),
            None => None,
        }
    }

    /// The present ports that the given model can use, in the order in which
    /// they were found: `None` for an unknown id, an empty list when no
    /// present port fits.
    pub fn get_ports_for_model(&self, id: &str) -> (r: Option<Vec<Port>>)
        ensures
            match r {
                Some(ports) => Some(ports_view(ports@)) == ports_for_model(
                    self@.catalog,
                    self@.hardware,
                    id@,
                ),
                None => ports_for_model(self@.catalog, self@.hardware, id@) is None,
            },
    {
        let idx = match self.find_model(id) {
            Some(i) => i,
            None => { return None; },
        };
        let kinds = &self.catalog[idx].desc.ports;
        let ghost hw = hardware_view(self.hardware@);
        let ghost keep = |h: HardwarePortView| supports(kinds@, h.kind);
        let mut out: Vec<Port> = Vec::new();
        let mut i: usize = 0;
        proof {
            reveal(Seq::filter);
            assert(hw.take(0).filter(keep) =~= Seq::<HardwarePortView>::empty());
            assert(ports_view(out@) =~= compatible_ports(hw.take(0), kinds@));
        }
        while i < self.hardware.len()
            invariant
                i <= self.hardware@.len(),
                hw == hardware_view(self.hardware@),
                keep == |h: HardwarePortView| supports(kinds@, h.kind),
                ports_view(out@) == compatible_ports(hw.take(i as int), kinds@),
            decreases self.hardware.len() - i,
        {
            let ghost before = out@;
            let h = &self.hardware[i];
            let fits = has_kind(kinds, h.kind);
            if fits {
                out.push(h.port.clone());
            }
            proof {
                reveal(Seq::filter);
                let next = hw.take(i as int + 1);
                assert(next.drop_last() =~= hw.take(i as int));
                assert(next.last() == h@);
                if fits {
                    assert(ports_view(out@) =~= ports_view(before).push(h@.port));
                    assert(next.filter(keep) == hw.take(i as int).filter(keep).push(h@));
                }
                assert(ports_view(out@) =~= compatible_ports(next, kinds@));
            }
            i += 1;
        }
        proof {
            assert(hw.take(i as int) =~= hw);
        }
        Some(out)
    }

    /// Select a model. No driver is built here.
    pub fn set_model(&mut self, id: &str)
        ensures
            final(self)@ == (ManagerView { model: id@, ..old(self)@ }),
    {
        self.model = id.to_owned();
    }

    /// Select a port. No driver is built here.
    pub fn set_port(&mut self, id: &str)
        ensures
            final(self)@ == (ManagerView { port: id@, ..old(self)@ }),
    {
        self.port = id.to_owned();
    }

    /// The id of the selected model; empty while none was selected.
    pub fn model(&self) -> (r: &str)
        ensures
            r@ == self@.model,
    {
        self.model.as_str()
    }

    /// The id of the selected port; empty while none was selected.
    pub fn port(&self) -> (r: &str)
        ensures
            r@ == self@.port,
    {
        self.port.as_str()
    }

    /// Resolve the selection into the device to drive: `None` while the
    /// selected model is not in the catalog, or the selected port is not
    /// present or not of a kind that the model can use.
    pub fn get_device(&self) -> (r: Option<Selection>)
        ensures
            match r {
                Some(d) => Some(d@) == self@.device(),
                None => self@.device() is None,
            },
    {
        let ports = match self.get_ports_for_model(self.model.as_str()) {
            Some(p) => p,
            None => { return None; },
        };
        match port_position(&ports, self.port.as_str()) {
            Some(i) => Some(Selection { model: self.model.clone(), port: ports[i].clone() }),
            None => None,
        }
    }
}

/// Nothing passes a filter that no element meets.
proof fn lemma_filter_none(hardware: Seq<HardwarePortView>, kinds: Seq<PortType>)
    requires
        forall|i: int| 0 <= i < hardware.len() ==> !supports(kinds, #[trigger] hardware[i].kind),
    ensures
        hardware.filter(|h: HardwarePortView| supports(kinds, h.kind)).len() == 0,
    decreases hardware.len(),
{
    reveal(Seq::filter);
    if hardware.len() > 0 {
        let rest = hardware.drop_last();
        assert forall|i: int| 0 <= i < rest.len() implies !supports(
            kinds,
            #[trigger] rest[i].kind,
        ) by {
            assert(rest[i] == hardware[i]);
        }
        lemma_filter_none(rest, kinds);
        assert(!supports(kinds, hardware[hardware.len() - 1].kind));
    }
}

/// Asking for the ports of a model that the catalog does not have gives
/// "unknown model". Asking for the ports of a model of the catalog while no
/// present port is of a kind it can use gives the empty list, not "unknown".
pub proof fn lemma_port_resolution(
    catalog: Seq<DeviceView>,
    hardware: Seq<HardwarePortView>,
    id: Seq<char>,
)
    ensures
        lookup(catalog, id) is None ==> ports_for_model(catalog, hardware, id) is None,
        lookup(catalog, id) matches Some(d) && (forall|i: int|
            0 <= i < hardware.len() ==> !supports(d.desc.ports, #[trigger] hardware[i].kind))
            ==> ports_for_model(catalog, hardware, id) == Some(Seq::<PortView>::empty()),
{
    if let Some(d) = lookup(catalog, id) {
        if forall|i: int|
            0 <= i < hardware.len() ==> !supports(d.desc.ports, #[trigger] hardware[i].kind) {
            lemma_filter_none(hardware, d.desc.ports);
            assert(compatible_ports(hardware, d.desc.ports) =~= Seq::<PortView>::empty());
        }
    }
}

/// A model is known exactly when some catalog entry has its id, and what is
/// found is the first such entry.
pub proof fn lemma_lookup(catalog: Seq<DeviceView>, id: Seq<char>)
    ensures
        lookup(catalog, id) is None <==> forall|i: int|
            0 <= i < catalog.len() ==> (#[trigger] catalog[i]).desc.id != id,
        lookup(catalog, id) matches Some(d) ==> exists|i: int|
            0 <= i < catalog.len() && #[trigger] catalog[i] == d && d.desc.id == id && forall|j: int|
                0 <= j < i ==> (#[trigger] catalog[j]).desc.id != id,
    decreases catalog.len(),
{
    if catalog.len() > 0 {
        let rest = catalog.drop_first();
        lemma_lookup(rest, id);
        if catalog[0].desc.id == id {
            assert(catalog[0] == lookup(catalog, id)->0);
        } else {
            assert forall|i: int| 0 <= i < rest.len() implies rest[i] == catalog[i + 1] by {}
            if lookup(rest, id) is None {
                assert forall|i: int| 0 <= i < catalog.len() implies (#[trigger] catalog[i]).desc.id
                    != id by {
                    if i > 0 {
                        assert(rest[i - 1] == catalog[i]);
                    }
                }
            } else {
                let d = lookup(rest, id)->0;
                let k = choose|i: int|
                    0 <= i < rest.len() && #[trigger] rest[i] == d && d.desc.id == id && forall|j: int|
                        0 <= j < i ==> (#[trigger] rest[j]).desc.id != id;
                assert(catalog[k + 1] == d);
                assert forall|j: int| 0 <= j < k + 1 implies (#[trigger] catalog[j]).desc.id
                    != id by {
                    if j > 0 {
                        assert(rest[j - 1] == catalog[j]);
                    }
                }
            }
        }
    }
}

} // verus!
