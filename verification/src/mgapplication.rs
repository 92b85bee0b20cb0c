//! The application state machine: what each action does to the selection,
//! to the idle/in-progress state and to what is offered to the user, and
//! which work it hands to the surrounding program.

use vstd::prelude::*;
use vstd::string::*;

pub use crate::actionqueue::MgAction;

use crate::actionqueue::ActionView;
use crate::devices::{
    capability_of, catalog_descs, descs_view, find_port, hardware_view, lookup, port_position,
    ports_for_model, ports_view, Capability, HardwarePort, Manager, ManagerView, Selection,
    SelectionView,
};
use crate::drivers::{Desc, DescView, Driver, Error, ErrorView, Port, PortView};
use crate::settings::{clone_text_opt, text_opt_view, Prefs, PrefsView};
use crate::Format;

verus! {

/// Whether a long operation is under way.
#[derive(Copy, Clone, Debug, PartialEq, Eq, Structural)]
pub enum UIState {
    Idle,
    InProgress,
}

/// Mathematical value of an [`Effect`].
pub enum EffectView {
    Post(ActionView),
    ReportError { message: Seq<char>, reason: Seq<char> },
    SaveSettings(PrefsView),
    SpawnErase(SelectionView),
    ChooseDownloadTarget { device: SelectionView, folder: Option<Seq<char>> },
    SpawnDownload { device: SelectionView, output_file: Seq<char> },
}

impl EffectView {
    /// Effects that put a worker on a device.
    pub open spec fn is_spawn(self) -> bool {
        self is SpawnErase || self is SpawnDownload || self is ChooseDownloadTarget
    }
}

/// Work that the state machine hands to the program around it.
#[derive(Debug, PartialEq, Eq)]
pub enum Effect {
    /// Push this action onto the queue.
    Post(MgAction),
    /// Tell the user that something failed, and why.
    ReportError { message: String, reason: String },
    /// Persist these remembered choices.
    SaveSettings(Prefs),
    /// Erase the tracks of this device, on a worker of its own.
    SpawnErase(Selection),
    /// Ask the user where to save the tracks of this device, starting in
    /// `folder` when there is one.
    ChooseDownloadTarget { device: Selection, folder: Option<String> },
    /// Download the tracks of this device into `output_file`, on a worker of
    /// its own.
    SpawnDownload { device: Selection, output_file: String },
}

impl View for Effect {
    type V = EffectView;

    open spec fn view(&self) -> EffectView {
        match self {
            Effect::Post(a) => EffectView::Post(a@),
            Effect::ReportError { message, reason } => EffectView::ReportError {
                message: message@,
                reason: reason@,
            },
            Effect::SaveSettings(p) => EffectView::SaveSettings(p@),
            Effect::SpawnErase(d) => EffectView::SpawnErase(d@),
            Effect::ChooseDownloadTarget { device, folder } => EffectView::ChooseDownloadTarget {
                device: device@,
                folder: text_opt_view(*folder),
            },
            Effect::SpawnDownload { device, output_file } => EffectView::SpawnDownload {
                device: device@,
                output_file: output_file@,
            },
        }
    }
}

/// The values of a sequence of effects.
pub open spec fn effects_view(s: Seq<Effect>) -> Seq<EffectView> {
    s.map_values(|e: Effect| e@)
}

/// The report that a failed erase gets.
pub open spec fn erase_failed_message() -> Seq<char> {
    "Error erasing GPS data."@
}

/// The report that a failed download gets.
pub open spec fn download_failed_message() -> Seq<char> {
    "Error downloading GPS data."@
}

/// The reason given when a device could not be opened.
pub open spec fn open_failed_reason() -> Seq<char> {
    "open failed"@
}

/// What is allowed while no model of the catalog is applied: nothing.
pub open spec fn no_capability() -> Capability {
    Capability { can_erase: false, can_erase_only: false }
}

/// Mathematical value of an [`MgApplication`].
pub struct AppView {
    pub manager: ManagerView,
    pub prefs: PrefsView,
    pub output_dest_dir: Seq<char>,
    pub state: UIState,
    /// What the model that was last applied allows.
    pub capability: Capability,
    /// The models offered to the user.
    pub models: Seq<DescView>,
    /// The ports offered to the user.
    pub ports: Seq<PortView>,
}

impl AppView {
    /// Whether erasing is offered: only for a model that can be erased.
    pub open spec fn erase_enabled(self) -> bool {
        self.capability.can_erase
    }

    /// Whether downloading is offered: a port must be selected, and the
    /// model must not be one that can only be erased.
    pub open spec fn download_enabled(self) -> bool {
        !self.capability.can_erase_only && self.manager.port.len() > 0
    }

    /// The user picked a model. The choice is remembered and persisted, and
    /// the id becomes the selected model, whether or not the catalog has it.
    /// What the model allows is applied and the ports it can use are
    /// offered; a model that the catalog lacks allows nothing and has no
    /// port.
    pub open spec fn model_changed(self, id: Seq<char>) -> (AppView, Seq<EffectView>) {
        let prefs = PrefsView { model: Some(id), ..self.prefs };
        (
            AppView {
                prefs,
                capability: match capability_of(self.manager.catalog, id) {
                    Some(c) => c,
                    None => no_capability(),
                },
                manager: ManagerView { model: id, ..self.manager },
                ports: match ports_for_model(self.manager.catalog, self.manager.hardware, id) {
                    Some(p) => p,
                    None => Seq::empty(),
                },
                ..self
            },
            seq![EffectView::SaveSettings(prefs)],
        )
    }

    /// The user picked a port. The choice is remembered and persisted, and
    /// it becomes the selected port.
    pub open spec fn port_changed(self, id: Seq<char>) -> (AppView, Seq<EffectView>) {
        let prefs = PrefsView { port: Some(id), ..self.prefs };
        (
            AppView { prefs, manager: ManagerView { port: id, ..self.manager }, ..self },
            seq![EffectView::SaveSettings(prefs)],
        )
    }

    /// The remembered model is picked again when the catalog has it.
    pub open spec fn reselect_model(self) -> Seq<EffectView> {
        match self.prefs.model {
            Some(m) => if lookup(self.manager.catalog, m) is Some {
                seq![EffectView::Post(ActionView::ModelChanged(m))]
            } else {
                seq![]
            },
            None => seq![],
        }
    }

    /// The remembered port is picked again when it is among the ports on
    /// offer.
    pub open spec fn reselect_port(self) -> Seq<EffectView> {
        match self.prefs.port {
            Some(p) => if find_port(self.ports, p) is Some {
                seq![EffectView::Post(ActionView::PortChanged(p))]
            } else {
                seq![]
            },
            None => seq![],
        }
    }

    /// The models on offer are taken anew from the catalog, and the
    /// remembered selection is applied again.
    pub open spec fn rescan(self) -> (AppView, Seq<EffectView>) {
        (
            AppView { models: catalog_descs(self.manager.catalog), ..self },
            self.reselect_model() + self.reselect_port(),
        )
    }

    /// What an erase request leads to: a worker on the selected device, or
    /// the news that no device could be resolved.
    pub open spec fn erase_request(self) -> EffectView {
        match self.manager.device() {
            Some(d) => EffectView::SpawnErase(d),
            None => EffectView::Post(ActionView::DoneErase(ErrorView::NoDriver)),
        }
    }

    /// What a download request leads to: the question where to save, or the
    /// news that no device could be resolved.
    pub open spec fn download_request(self) -> EffectView {
        match self.manager.device() {
            Some(d) => EffectView::ChooseDownloadTarget {
                device: d,
                folder: self.prefs.output_dir,
            },
            None => EffectView::Post(ActionView::DoneDownload(ErrorView::NoDriver)),
        }
    }

    /// The end of an operation: back to idle whatever the outcome, and one
    /// report unless the outcome is silent.
    pub open spec fn done(self, message: Seq<char>, e: ErrorView) -> (AppView, Seq<EffectView>) {
        (
            AppView { state: UIState::Idle, ..self },
            if e.is_silent() {
                seq![]
            } else {
                seq![EffectView::ReportError { message, reason: e.message() }]
            },
        )
    }

    /// The user picked a directory for downloads: it is taken over,
    /// remembered and persisted.
    pub open spec fn output_dir_changed(self, dir: Seq<char>) -> (AppView, Seq<EffectView>) {
        let prefs = PrefsView { output_dir: Some(dir), ..self.prefs };
        (
            AppView { output_dest_dir: dir, prefs, ..self },
            seq![EffectView::SaveSettings(prefs)],
        )
    }

    /// What one action does: the state afterwards and the work handed out.
    /// A request to start an operation while one is under way does nothing.
    pub open spec fn step(self, a: ActionView) -> (AppView, Seq<EffectView>) {
        match a {
            ActionView::RescanDevices => self.rescan(),
            ActionView::ModelChanged(id) => self.model_changed(id),
            ActionView::PortChanged(id) => self.port_changed(id),
            ActionView::StartErase => if self.state is InProgress {
                (self, seq![])
            } else {
                (AppView { state: UIState::InProgress, ..self }, seq![self.erase_request()])
            },
            ActionView::DoneErase(e) => self.done(erase_failed_message(), e),
            ActionView::StartDownload => if self.state is InProgress {
                (self, seq![])
            } else {
                (AppView { state: UIState::InProgress, ..self }, seq![self.download_request()])
            },
            ActionView::DoneDownload(e) => self.done(download_failed_message(), e),
            ActionView::SetOutputDir(dir) => self.output_dir_changed(dir),
        }
    }

    /// What a run of actions does, one after the other: the state at the
    /// end and all the work handed out, in order.
    pub open spec fn run(self, actions: Seq<ActionView>) -> (AppView, Seq<EffectView>)
        decreases actions.len(),
    {
        if actions.len() == 0 {
            (self, seq![])
        } else {
            let (next, first) = self.step(actions[0]);
            let (last, rest) = next.run(actions.drop_first());
            (last, first + rest)
        }
    }
}

/// The state of the application: the registry with the selection, the
/// remembered choices, whether an operation is under way, and what is on
/// offer to the user. Only the control loop touches it.
#[derive(Debug)]
pub struct MgApplication {
    device_manager: Manager,
    prefs: Prefs,
    output_dest_dir: String,
    state: UIState,
    capability: Capability,
    models: Vec<Desc>,
    ports: Vec<Port>,
}

impl View for MgApplication {
    type V = AppView;

    closed spec fn view(&self) -> AppView {
        AppView {
            manager: self.device_manager@,
            prefs: self.prefs@,
            output_dest_dir: self.output_dest_dir@,
            state: self.state,
            capability: self.capability,
            models: descs_view(self.models@),
            ports: ports_view(self.ports@),
        }
    }
}

/// Add to `effects` the request to push `action` onto the queue.
pub fn post_event(effects: &mut Vec<Effect>, action: MgAction)
    ensures
        effects_view(final(effects)@) == effects_view(old(effects)@).push(
            EffectView::Post(action@),
        ),
{
    effects.push(Effect::Post(action));
    assert(effects_view(effects@) =~= effects_view(old(effects)@).push(
        EffectView::Post(action@),
    ));
}

impl MgApplication {
    /// The application at its beginning, over the catalog and the present
    /// ports of the given registry: idle, nothing selected, nothing on
    /// offer, neither operation offered. A selection that the registry came
    /// with is cleared.
    pub fn new(device_manager: Manager, prefs: Prefs) -> (r: Self)
        ensures
            r@ == (AppView {
                manager: ManagerView {
                    model: Seq::<char>::empty(),
                    port: Seq::<char>::empty(),
                    ..device_manager@
                },
                prefs: prefs@,
                output_dest_dir: Seq::<char>::empty(),
                state: UIState::Idle,
                capability: no_capability(),
                models: Seq::<DescView>::empty(),
                ports: Seq::<PortView>::empty(),
            }),
    {
        let mut device_manager = device_manager;
        device_manager.set_model("");
        device_manager.set_port("");
        proof {
            reveal_strlit("");
            assert(""@ =~= Seq::<char>::empty());
        }
        let r = MgApplication {
            device_manager,
            prefs,
            output_dest_dir: String::new(),
            state: UIState::Idle,
            capability: Capability { can_erase: false, can_erase_only: false },
            models: Vec::new(),
            ports: Vec::new(),
        };
        assert(r@.models =~= Seq::<DescView>::empty());
        assert(r@.ports =~= Seq::<PortView>::empty());
        r
    }

    /// Whether an operation is under way.
    pub fn state(&self) -> (r: UIState)
        ensures
            r == self@.state,
    {
        self.state
    }

    /// Whether erasing is offered.
    pub fn erase_enabled(&self) -> (r: bool)
        ensures
            r == self@.erase_enabled(),
    {
        self.capability.can_erase
    }

    /// Whether downloading is offered.
    pub fn download_enabled(&self) -> (r: bool)
        ensures
            r == self@.download_enabled(),
    {
        !self.capability.can_erase_only && !self.device_manager.port().is_empty()
    }

    /// The registry.
    pub fn device_manager(&self) -> (r: &Manager)
        ensures
            r@ == self@.manager,
    {
        &self.device_manager
    }

    /// The remembered choices.
    pub fn prefs(&self) -> (r: &Prefs)
        ensures
            r@ == self@.prefs,
    {
        &self.prefs
    }

    /// The directory for downloaded tracks; empty while none was picked.
    pub fn output_dest_dir(&self) -> (r: &str)
        ensures
            r@ == self@.output_dest_dir,
    {
        self.output_dest_dir.as_str()
    }

    /// The models on offer.
    pub fn models(&self) -> (r: &Vec<Desc>)
        ensures
            descs_view(r@) == self@.models,
    {
        &self.models
    }

    /// The ports on offer.
    pub fn ports(&self) -> (r: &Vec<Port>)
        ensures
            ports_view(r@) == self@.ports,
    {
        &self.ports
    }

    /// Take over the ports that are present now; everything else stays.
    pub fn set_hardware(&mut self, hardware: Vec<HardwarePort>)
        ensures
            final(self)@ == (AppView {
                manager: ManagerView { hardware: hardware_view(hardware@), ..old(self)@.manager },
                ..old(self)@
            }),
    {
        self.device_manager.set_hardware(hardware);
    }

    /// The request to tell the user that something failed.
    pub fn report_error(message: &str, reason: &str) -> (r: Effect)
        ensures
            r@ == (EffectView::ReportError { message: message@, reason: reason@ }),
    {
        Effect::ReportError { message: message.to_owned(), reason: reason.to_owned() }
    }

    /// The request to persist the remembered choices as they are now.
    pub fn save_settings(&self) -> (r: Effect)
        ensures
            r@ == EffectView::SaveSettings(self@.prefs),
    {
        Effect::SaveSettings(self.prefs.clone())
    }

    /// Take over the directory for downloaded tracks.
    pub fn set_output_destination_dir(&mut self, output: &str)
        ensures
            final(self)@ == (AppView { output_dest_dir: output@, ..old(self)@ }),
    {
        self.output_dest_dir = output.to_owned();
    }

    /// Take over what was read from the settings file, or hand back why it
    /// could not be read; the remembered choices then stay as they were.
    pub fn load_settings(&mut self, loaded: Result<Prefs, String>) -> (r: Result<(), String>)
        ensures
            match loaded {
                Ok(p) => r is Ok && final(self)@ == (AppView { prefs: p@, ..old(self)@ }),
                Err(e) => r == Err::<(), String>(e) && final(self)@ == old(self)@,
            },
    {
        match loaded {
            Ok(p) => {
                self.prefs = p;
                Ok(())
            },
            Err(e) => Err(e),
        }
    }

    /// Enter the given state.
    pub fn set_state(&mut self, state: UIState)
        ensures
            final(self)@ == (AppView { state, ..old(self)@ }),
    {
        self.state = state;
    }

    /// Apply what a model allows.
    pub fn update_device_capability(&mut self, capability: &Capability)
        ensures
            final(self)@ == (AppView { capability: *capability, ..old(self)@ }),
    {
        self.capability = *capability;
    }

    /// Offer the given ports.
    pub fn populate_port_combo(&mut self, ports: Vec<Port>)
        ensures
            final(self)@ == (AppView { ports: ports_view(ports@), ..old(self)@ }),
    {
        self.ports = ports;
    }

    /// Offer the models of the catalog, and pick the remembered model and
    /// port again where they are on offer.
    pub fn populate_model_combo(&mut self) -> (r: Vec<Effect>)
        ensures
            (final(self)@, effects_view(r@)) == old(self)@.rescan(),
    {
        let mut effects: Vec<Effect> = Vec::new();
        assert(effects_view(effects@) =~= Seq::<EffectView>::empty());
        if let Some(model) = &self.prefs.model {
            if self.device_manager.device_capability(model.as_str()).is_some() {
                post_event(&mut effects, MgAction::ModelChanged(model.clone()));
            }
        }
        assert(effects_view(effects@) =~= self@.reselect_model());
        if let Some(port) = &self.prefs.port {
            if port_position(&self.ports, port.as_str()).is_some() {
                post_event(&mut effects, MgAction::PortChanged(port.clone()));
            }
        }
        assert(effects_view(effects@) =~= self@.reselect_model() + self@.reselect_port());
        self.models = self.device_manager.devices_desc();
        effects
    }

    /// Start the application: fill what is on offer.
    pub fn start(&mut self) -> (r: Vec<Effect>)
        ensures
            (final(self)@, effects_view(r@)) == old(self)@.rescan(),
    {
        self.populate_model_combo()
    }

    /// The ports may have changed: fill what is on offer anew.
    pub fn rescan_devices(&mut self) -> (r: Vec<Effect>)
        ensures
            (final(self)@, effects_view(r@)) == old(self)@.rescan(),
    {
        self.populate_model_combo()
    }

    /// The user picked the model with the given id.
    pub fn model_changed(&mut self, id: &str) -> (r: Vec<Effect>)
        ensures
            (final(self)@, effects_view(r@)) == old(self)@.model_changed(id@),
    {
        self.prefs.model = Some(id.to_owned());
        let mut effects: Vec<Effect> = Vec::new();
        effects.push(self.save_settings());
        assert(effects_view(effects@) =~= seq![EffectView::SaveSettings(self@.prefs)]);
        let cap = match self.device_manager.device_capability(id) {
            Some(cap) => cap,
            None => Capability { can_erase: false, can_erase_only: false },
        };
        self.update_device_capability(&cap);
        self.device_manager.set_model(id);
        match self.device_manager.get_ports_for_model(id) {
            Some(p) => self.populate_port_combo(p),
            None => {
                let none: Vec<Port> = Vec::new();
                assert(ports_view(none@) =~= Seq::<PortView>::empty());
                self.populate_port_combo(none)
            },
        }
        effects
    }

    /// The user picked the port with the given id.
    pub fn port_changed(&mut self, id: &str) -> (r: Vec<Effect>)
        ensures
            (final(self)@, effects_view(r@)) == old(self)@.port_changed(id@),
    {
        self.prefs.port = Some(id.to_owned());
        let mut effects: Vec<Effect> = Vec::new();
        effects.push(self.save_settings());
        assert(effects_view(effects@) =~= seq![EffectView::SaveSettings(self@.prefs)]);
        self.device_manager.set_port(id);
        effects
    }

    /// What an erase request leads to.
    pub fn do_erase(&self) -> (r: Effect)
        ensures
            r@ == self@.erase_request(),
    {
        match self.device_manager.get_device() {
            Some(d) => Effect::SpawnErase(d),
            None => Effect::Post(MgAction::DoneErase(Error::NoDriver)),
        }
    }

    /// What a download request leads to.
    pub fn do_download(&self) -> (r: Effect)
        ensures
            r@ == self@.download_request(),
    {
        match self.device_manager.get_device() {
            Some(d) => Effect::ChooseDownloadTarget {
                device: d,
                folder: clone_text_opt(&self.prefs.output_dir),
            },
            None => Effect::Post(MgAction::DoneDownload(Error::NoDriver)),
        }
    }

    /// The end of an operation whose failure is reported under `message`.
    fn done(&mut self, message: &str, e: &Error) -> (r: Vec<Effect>)
        ensures
            (final(self)@, effects_view(r@)) == old(self)@.done(message@, e@),
    {
        let mut effects: Vec<Effect> = Vec::new();
        if !e.is_silent() {
            let reason = e.to_string();
            effects.push(Self::report_error(message, reason.as_str()));
        }
        self.set_state(UIState::Idle);
        assert(effects_view(effects@) =~= old(self)@.done(message@, e@).1);
        effects
    }

    /// Process one action: change the state as the action asks, and return
    /// the work to be done outside, in order.
    pub fn process_event(&mut self, evt: MgAction) -> (r: Vec<Effect>)
        ensures
            (final(self)@, effects_view(r@)) == old(self)@.step(evt@),
    {
        match evt {
            MgAction::RescanDevices => self.rescan_devices(),
            MgAction::ModelChanged(id) => self.model_changed(id.as_str()),
            MgAction::PortChanged(id) => self.port_changed(id.as_str()),
            MgAction::StartErase => {
                let mut effects: Vec<Effect> = Vec::new();
                if self.state == UIState::Idle {
                    self.set_state(UIState::InProgress);
                    effects.push(self.do_erase());
                }
                assert(effects_view(effects@) =~= old(self)@.step(evt@).1);
                effects
            },
            MgAction::DoneErase(e) => self.done("Error erasing GPS data.", &e),
            MgAction::StartDownload => {
                let mut effects: Vec<Effect> = Vec::new();
                if self.state == UIState::Idle {
                    self.set_state(UIState::InProgress);
                    effects.push(self.do_download());
                }
                assert(effects_view(effects@) =~= old(self)@.step(evt@).1);
                effects
            },
            MgAction::DoneDownload(e) => self.done("Error downloading GPS data.", &e),
            MgAction::SetOutputDir(dir) => {
                self.set_output_destination_dir(dir.as_str());
                self.prefs.output_dir = Some(dir);
                let mut effects: Vec<Effect> = Vec::new();
                effects.push(self.save_settings());
                assert(effects_view(effects@) =~= seq![EffectView::SaveSettings(self@.prefs)]);
                effects
            },
        }
    }
}

/// The action that reports how an erase went.
pub fn erase_outcome(result: Result<(), Error>) -> (r: MgAction)
    ensures
        r@ == erase_outcome_of(result),
{
    match result {
        Ok(_) => MgAction::DoneErase(Error::Success),
        Err(e) => MgAction::DoneErase(e),
    }
}

/// The action that reports that the device could not be opened for an
/// erase.
pub fn open_failed() -> (r: MgAction)
    ensures
        r@ == open_failed_action(),
{
    MgAction::DoneErase(Error::Failed(String::from_str("open failed")))
}

/// The action that reports that the device could not be opened for a
/// download.
pub fn download_open_failed() -> (r: MgAction)
    ensures
        r@ == download_open_failed_action(),
{
    MgAction::DoneDownload(Error::Failed(String::from_str("open failed")))
}

/// What a download leads to once the device has answered: the file to
/// store, or the action that reports the failure.
pub fn download_outcome(result: Result<String, Error>) -> (r: Result<String, MgAction>)
    ensures
        follows_download(result, r),
{
    match result {
        Ok(file) => Ok(file),
        Err(e) => Err(MgAction::DoneDownload(e)),
    }
}

/// The action that reports how storing the downloaded file went: `failure`
/// is what the system said when it could not be stored.
pub fn copy_outcome(failure: Option<String>) -> (r: MgAction)
    ensures
        match failure {
            Some(why) => r@ == ActionView::DoneDownload(ErrorView::IOError(why@)),
            None => r@ == ActionView::DoneDownload(ErrorView::Success),
        },
{
    match failure {
        Some(why) => MgAction::DoneDownload(Error::IOError(why)),
        None => MgAction::DoneDownload(Error::Success),
    }
}

/// What the answer to the question where to save leads to: a download into
/// the named file, or, when the user declined or named no file, the action
/// that reports the cancellation.
pub fn download_response(device: Selection, accepted: bool, name: Option<String>) -> (r: Effect)
    ensures
        match name {
            Some(file) if accepted => r@ == (EffectView::SpawnDownload {
                device: device@,
                output_file: file@,
            }),
            _ => r@ == EffectView::Post(ActionView::DoneDownload(ErrorView::Cancelled)),
        },
{
    if accepted {
        match name {
            Some(file) => Effect::SpawnDownload { device, output_file: file },
            None => Effect::Post(MgAction::DoneDownload(Error::Cancelled)),
        }
    } else {
        Effect::Post(MgAction::DoneDownload(Error::Cancelled))
    }
}

/// The action that reports how an erase went, as a value.
pub open spec fn erase_outcome_of(answer: Result<(), Error>) -> ActionView {
    match answer {
        Ok(_) => ActionView::DoneErase(ErrorView::Success),
        Err(e) => ActionView::DoneErase(e@),
    }
}

/// The action that reports that the device could not be opened for an
/// erase, as a value.
pub open spec fn open_failed_action() -> ActionView {
    ActionView::DoneErase(ErrorView::Failed(open_failed_reason()))
}

/// The action that reports that the device could not be opened for a
/// download, as a value.
pub open spec fn download_open_failed_action() -> ActionView {
    ActionView::DoneDownload(ErrorView::Failed(open_failed_reason()))
}

/// Whether `r` is what a download leads to once the device has answered
/// `answer`: the file that the device named, or the action that reports the
/// failure.
pub open spec fn follows_download(answer: Result<String, Error>, r: Result<String, MgAction>) -> bool {
    match answer {
        Ok(file) => r == Ok::<String, MgAction>(file),
        Err(e) => r matches Err(a) && a@ == ActionView::DoneDownload(e@),
    }
}

/// An erase that ran on a device and gave `r`. The device was asked to open,
/// answered `opened` and was left as `after`. If it opened, it was asked to
/// erase, answered `answer`, and `r` reports that answer; if not, it was
/// asked nothing more and `r` reports that it could not be opened.
pub open spec fn erase_ran<D: Driver>(
    before: &D,
    after: &D,
    opened: bool,
    answer: Result<(), Error>,
    r: MgAction,
) -> bool {
    &&& before.opens(opened, after)
    &&& if opened {
        after.erases(answer) && r@ == erase_outcome_of(answer)
    } else {
        r@ == open_failed_action()
    }
}

/// A download that ran on a device and gave `r`. The device was asked to
/// open, answered `opened` and was left as `after`. If it opened, it was
/// asked for the tracks in GPX, without erasing, answered `answer`, and `r`
/// follows from that answer; if not, it was asked nothing more and `r` is
/// the end of the download, with the failure to open as its outcome.
pub open spec fn download_ran<D: Driver>(
    before: &D,
    after: &D,
    opened: bool,
    answer: Result<String, Error>,
    r: Result<String, MgAction>,
) -> bool {
    &&& before.opens(opened, after)
    &&& if opened {
        after.downloads(Format::Gpx, false, answer) && follows_download(answer, r)
    } else {
        r matches Err(a) && a@ == download_open_failed_action()
    }
}

/// The work of an erase, for a worker of its own: open the device and, if it
/// opened, erase it. The outcome comes back as the action to push. What the
/// device answers is its own affair; the result reports what it did answer.
pub fn really_do_erase<D: Driver>(device: &mut D) -> (r: MgAction)
    ensures
        exists|opened: bool, answer: Result<(), Error>|
            erase_ran(old(device), final(device), opened, answer, r),
        r@ is DoneErase,
{
    let ghost before = *device;
    if device.open() {
        let answer = device.erase();
        let r = erase_outcome(answer);
        assert(erase_ran(&before, device, true, answer, r));
        r
    } else {
        let r = open_failed();
        assert(erase_ran(&before, device, false, Ok(()), r));
        r
    }
}

/// The first half of the work of a download, for a worker of its own: open
/// the device and, if it opened, fetch the tracks, in GPX and without
/// erasing. Gives the file that the device named, which the caller then
/// stores, or the action to push when there is nothing to store: the end of
/// the download, with what went wrong. What the device answers is its own
/// affair; the result follows from what it did answer.
pub fn really_do_download<D: Driver>(device: &mut D) -> (r: Result<String, MgAction>)
    ensures
        exists|opened: bool, answer: Result<String, Error>|
            download_ran(old(device), final(device), opened, answer, r),
        r matches Err(a) ==> a@ is DoneDownload,
{
    let ghost before = *device;
    if device.open() {
        let answer = device.download(Format::Gpx, false);
        let r = download_outcome(answer);
        assert(download_ran(&before, device, true, answer, r));
        r
    } else {
        let r = Err(download_open_failed());
        assert(download_ran(&before, device, false, Err(Error::Success), r));
        r
    }
}

/// A request to start an operation leaves the application in progress,
/// whatever it was before. From idle it hands out exactly one piece of work;
/// while an operation is under way it changes nothing and hands out none.
pub proof fn lemma_start(s: AppView, a: ActionView)
    requires
        a.is_start(),
    ensures
        s.step(a).0.state is InProgress,
        s.state is Idle ==> s.step(a).1.len() == 1,
        s.state is InProgress ==> s.step(a) == (s, Seq::<EffectView>::empty()),
{
}

/// At most one operation is in flight: once an operation is under way, then
/// as long as no action reports its end, the application stays in progress
/// and no action puts a worker on a device.
pub proof fn lemma_single_flight(s: AppView, actions: Seq<ActionView>)
    requires
        s.state is InProgress,
        forall|i: int| 0 <= i < actions.len() ==> !(#[trigger] actions[i]).is_done(),
    ensures
        s.run(actions).0.state is InProgress,
        forall|j: int| 0 <= j < s.run(actions).1.len() ==> !(#[trigger] s.run(actions).1[j]).is_spawn(),
    decreases actions.len(),
{
    if actions.len() > 0 {
        let a = actions[0];
        assert(!a.is_done());
        let (next, first) = s.step(a);
        let rest = actions.drop_first();
        assert forall|i: int| 0 <= i < rest.len() implies !(#[trigger] rest[i]).is_done() by {
            assert(rest[i] == actions[i + 1]);
        }
        lemma_single_flight(next, rest);
        assert forall|j: int| 0 <= j < first.len() implies !(#[trigger] first[j]).is_spawn() by {
            if a is RescanDevices {
                if j < s.reselect_model().len() {
                    assert(first[j] == s.reselect_model()[j]);
                } else {
                    assert(first[j] == s.reselect_port()[j - s.reselect_model().len()]);
                }
            }
        }
    }
}

/// The end of an operation restores idle, for every outcome, and touches
/// nothing else.
pub proof fn lemma_done_restores_idle(s: AppView, a: ActionView)
    requires
        a.is_done(),
    ensures
        s.step(a).0 == (AppView { state: UIState::Idle, ..s }),
{
}

/// A silent outcome is not reported; any other outcome is reported exactly
/// once, with its text as the reason. The text of a failure that the device
/// reported is the device's own.
pub proof fn lemma_reports(s: AppView, e: ErrorView)
    ensures
        e.is_silent() ==> s.step(ActionView::DoneErase(e)).1 == Seq::<EffectView>::empty(),
        e.is_silent() ==> s.step(ActionView::DoneDownload(e)).1 == Seq::<EffectView>::empty(),
        !e.is_silent() ==> s.step(ActionView::DoneErase(e)).1 == seq![
            EffectView::ReportError { message: erase_failed_message(), reason: e.message() },
        ],
        !e.is_silent() ==> s.step(ActionView::DoneDownload(e)).1 == seq![
            EffectView::ReportError { message: download_failed_message(), reason: e.message() },
        ],
        e matches ErrorView::Failed(why) ==> e.message() == why,
        e.is_silent() <==> e is Success || e is Cancelled,
{
}

/// Picking a model that the catalog lacks leaves nothing of the model left
/// behind: no port is on offer, erasing is not offered, the selection
/// resolves to no device, and a request to erase or to download that follows
/// puts no worker on a device but reports that there is no driver.
pub proof fn lemma_unknown_model(s: AppView, id: Seq<char>)
    requires
        lookup(s.manager.catalog, id) is None,
    ensures
        s.step(ActionView::ModelChanged(id)).0.ports == Seq::<PortView>::empty(),
        s.step(ActionView::ModelChanged(id)).0.manager.model == id,
        s.step(ActionView::ModelChanged(id)).0.manager.device() is None,
        s.step(ActionView::ModelChanged(id)).0.capability == no_capability(),
        !s.step(ActionView::ModelChanged(id)).0.erase_enabled(),
        s.step(ActionView::ModelChanged(id)).0.state == s.state,
        s.step(ActionView::ModelChanged(id)).0.erase_request() == EffectView::Post(
            ActionView::DoneErase(ErrorView::NoDriver),
        ),
        s.step(ActionView::ModelChanged(id)).0.download_request() == EffectView::Post(
            ActionView::DoneDownload(ErrorView::NoDriver),
        ),
{
}

/// What a model allows decides what is offered once it is picked: erasing is
/// not offered for a model that cannot be erased, and downloading is not
/// offered for a model that can only be erased.
pub proof fn lemma_capability_gating(s: AppView, id: Seq<char>, cap: Capability)
    requires
        capability_of(s.manager.catalog, id) == Some(cap),
    ensures
        s.step(ActionView::ModelChanged(id)).0.capability == cap,
        !cap.can_erase ==> !s.step(ActionView::ModelChanged(id)).0.erase_enabled(),
        cap.can_erase_only ==> !s.step(ActionView::ModelChanged(id)).0.download_enabled(),
{
}

} // verus!
