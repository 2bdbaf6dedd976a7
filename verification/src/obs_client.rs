//! The decisions of the OBS integration: whether and how to connect, and
//! the request sequences that refresh the widget's browser source or
//! create the scene and the source. The requests themselves go over the
//! OBS WebSocket elsewhere; each reply is handed back to a flow, which
//! names the next request or the outcome.

use vstd::prelude::*;

use crate::config::ObsConfig;
use crate::text::{append_str, str_equals, string_from_chars};

verus! {

/// The browser source settings that are written: the widget's address and
/// size, and for a new source also whether it shuts down when hidden.
#[derive(Clone, Debug)]
pub struct BrowserSourceSettings {
    pub url: String,
    pub width: u32,
    pub height: u32,
    pub shutdown: Option<bool>,
}

/// A request to OBS, or the end of a flow with its outcome.
#[derive(Debug)]
pub enum ObsAction {
    /// List the scenes; the reply gives their names.
    ListScenes,
    /// List the items of a scene; the reply gives their source names.
    ListSceneItems { scene: String },
    /// List all inputs; the reply gives their names.
    ListInputs,
    /// Create a scene.
    CreateScene { scene: String },
    /// Overlay new settings on an input.
    SetSourceSettings { input: String, settings: BrowserSourceSettings },
    /// Create a browser source in a scene, enabled.
    CreateBrowserSource { scene: String, input: String, settings: BrowserSourceSettings },
    /// The flow is over, with this outcome.
    Finish(Result<(), String>),
}

/// Where a flow stands: which reply it waits for.
#[derive(Clone, Copy, Debug, PartialEq, Eq, Structural)]
pub enum ObsFlowState {
    RefreshAwaitScenes,
    RefreshAwaitItems,
    RefreshAwaitUpdate,
    CreateAwaitScenes,
    CreateAwaitSceneCreation,
    CreateAwaitInputs,
    CreateAwaitGlobalUpdate,
    CreateAwaitPlacement,
    CreateAwaitSourceCreation,
    Finished,
}

/// A running flow: the scene and source it manages, the widget's address
/// and size, and where it stands.
#[derive(Clone, Debug)]
pub struct ObsFlow {
    pub scene: String,
    pub source: String,
    pub url: String,
    pub width: u32,
    pub height: u32,
    pub state: ObsFlowState,
}

/// The model of browser source settings.
pub struct SettingsModel {
    pub url: Seq<char>,
    pub width: u32,
    pub height: u32,
    pub shutdown: Option<bool>,
}

/// The model of an action.
pub enum ObsActionModel {
    ListScenes,
    ListSceneItems(Seq<char>),
    ListInputs,
    CreateScene(Seq<char>),
    SetSourceSettings(Seq<char>, SettingsModel),
    CreateBrowserSource(Seq<char>, Seq<char>, SettingsModel),
    Finish(Result<(), Seq<char>>),
}

impl View for BrowserSourceSettings {
    type V = SettingsModel;

    open spec fn view(&self) -> SettingsModel {
        SettingsModel { url: self.url@, width: self.width, height: self.height, shutdown: self.shutdown }
    }
}

impl View for ObsAction {
    type V = ObsActionModel;

    open spec fn view(&self) -> ObsActionModel {
        match self {
            ObsAction::ListScenes => ObsActionModel::ListScenes,
            ObsAction::ListSceneItems { scene } => ObsActionModel::ListSceneItems(scene@),
            ObsAction::ListInputs => ObsActionModel::ListInputs,
            ObsAction::CreateScene { scene } => ObsActionModel::CreateScene(scene@),
            ObsAction::SetSourceSettings { input, settings } => ObsActionModel::SetSourceSettings(
                input@,
                settings@,
            ),
            ObsAction::CreateBrowserSource { scene, input, settings } => ObsActionModel::CreateBrowserSource(
                scene@,
                input@,
                settings@,
            ),
            ObsAction::Finish(Ok(())) => ObsActionModel::Finish(Ok(())),
            ObsAction::Finish(Err(e)) => ObsActionModel::Finish(Err(e@)),
        }
    }
}

/// The name of the browser source that the create flow manages.
pub open spec fn widget_source_name() -> Seq<char> {
    "Now Playing Widget"@
}

/// The outcome when there is no connection.
pub open spec fn not_connected() -> ObsActionModel {
    ObsActionModel::Finish(Err("Not connected to OBS"@))
}

/// A failed request, its reason prefixed by what was being done.
pub open spec fn failed_with(prefix: Seq<char>, reason: Seq<char>) -> ObsActionModel {
    ObsActionModel::Finish(Err(prefix + reason))
}

/// The settings written for the flow's widget.
pub open spec fn widget_settings(f: ObsFlow, shutdown: Option<bool>) -> SettingsModel {
    SettingsModel { url: f.url@, width: f.width, height: f.height, shutdown }
}

/// The outcome of a successful flow.
pub open spec fn done() -> ObsActionModel {
    ObsActionModel::Finish(Ok(()))
}

/// The next state and action of a flow after a reply: the names listed,
/// or the reason the request failed.
pub open spec fn obs_step(f: ObsFlow, reply: Result<Seq<Seq<char>>, Seq<char>>) -> (ObsFlowState, ObsActionModel) {
    let fin = ObsFlowState::Finished;
    match f.state {
        ObsFlowState::RefreshAwaitScenes => match reply {
            Err(e) => (fin, ObsActionModel::Finish(Err(e))),
            Ok(names) => if names.contains(f.scene@) {
                (ObsFlowState::RefreshAwaitItems, ObsActionModel::ListSceneItems(f.scene@))
            } else {
                (fin, done())
            },
        },
        ObsFlowState::RefreshAwaitItems => match reply {
            Err(e) => (fin, ObsActionModel::Finish(Err(e))),
            Ok(items) => if items.contains(f.source@) {
                (
                    ObsFlowState::RefreshAwaitUpdate,
                    ObsActionModel::SetSourceSettings(f.source@, widget_settings(f, None)),
                )
            } else {
                (fin, done())
            },
        },
        ObsFlowState::RefreshAwaitUpdate => match reply {
            Err(e) => (fin, failed_with("Failed to update source: "@, e)),
            Ok(_) => (fin, done()),
        },
        ObsFlowState::CreateAwaitScenes => match reply {
            Err(e) => (fin, ObsActionModel::Finish(Err(e))),
            Ok(names) => if names.contains(f.scene@) {
                (ObsFlowState::CreateAwaitInputs, ObsActionModel::ListInputs)
            } else {
                (ObsFlowState::CreateAwaitSceneCreation, ObsActionModel::CreateScene(f.scene@))
            },
        },
        ObsFlowState::CreateAwaitSceneCreation => match reply {
            Err(e) => (fin, failed_with("Failed to create scene: "@, e)),
            Ok(_) => (ObsFlowState::CreateAwaitInputs, ObsActionModel::ListInputs),
        },
        ObsFlowState::CreateAwaitInputs => match reply {
            Err(e) => (fin, ObsActionModel::Finish(Err(e))),
            Ok(inputs) => if inputs.contains(f.source@) {
                (
                    ObsFlowState::CreateAwaitGlobalUpdate,
                    ObsActionModel::SetSourceSettings(f.source@, widget_settings(f, None)),
                )
            } else {
                (
                    ObsFlowState::CreateAwaitSourceCreation,
                    ObsActionModel::CreateBrowserSource(f.scene@, f.source@, widget_settings(f, Some(false))),
                )
            },
        },
        ObsFlowState::CreateAwaitGlobalUpdate => match reply {
            Err(e) => (fin, failed_with("Failed to update source: "@, e)),
            Ok(_) => (ObsFlowState::CreateAwaitPlacement, ObsActionModel::ListSceneItems(f.scene@)),
        },
        ObsFlowState::CreateAwaitPlacement => match reply {
            Err(e) => (fin, ObsActionModel::Finish(Err(e))),
            Ok(_) => (fin, done()),
        },
        ObsFlowState::CreateAwaitSourceCreation => match reply {
            Err(e) => (fin, failed_with("Failed to create source: "@, e)),
            Ok(_) => (fin, done()),
        },
        ObsFlowState::Finished => (fin, done()),
    }
}

/// A reply taken by its model.
pub open spec fn reply_view(reply: Result<Vec<String>, String>) -> Result<Seq<Seq<char>>, Seq<char>> {
    match reply {
        Ok(names) => Ok(names@.map_values(|s: String| s@)),
        Err(e) => Err(e@),
    }
}

/// Whether a name is among the listed names.
pub fn lists_name(names: &Vec<String>, name: &str) -> (r: bool)
    ensures
        r == names@.map_values(|s: String| s@).contains(name@),
{
    let ghost all = names@.map_values(|s: String| s@);
    for i in 0..names.len()
        invariant
            all == names@.map_values(|s: String| s@),
            forall|j: int| 0 <= j < i ==> all[j] != name@,
    {
        if str_equals(names[i].as_str(), name) {
            assert(all[i as int] == name@);
            return true;
        }
    }
    assert(!all.contains(name@)) by {
        if all.contains(name@) {
            let j = choose|j: int| 0 <= j < all.len() && all[j] == name@;
            assert(all[j] != name@);
        }
    }
    false
}

fn prefixed(prefix: &str, reason: &str) -> (r: String)
    ensures
        r@ == prefix@ + reason@,
{
    let mut out: Vec<char> = Vec::new();
    append_str(&mut out, prefix);
    append_str(&mut out, reason);
    string_from_chars(&out)
}

impl ObsFlow {
    /// Whether the flow is over.
    pub fn is_finished(&self) -> (r: bool)
        ensures
            r == (self.state == ObsFlowState::Finished),
    {
        self.state == ObsFlowState::Finished
    }

    fn settings(&self, shutdown: Option<bool>) -> (s: BrowserSourceSettings)
        ensures
            s@ == widget_settings(*self, shutdown),
    {
        BrowserSourceSettings { url: self.url.clone(), width: self.width, height: self.height, shutdown }
    }

    /// Starts refreshing the configured browser source: when the configured
    /// scene exists and holds the configured source, the source gets the
    /// widget's address and size. A missing scene or source is no error.
    pub fn refresh_source(config: &ObsConfig, connected: bool, url: &str, width: u32, height: u32) -> (r: (
        ObsFlow,
        ObsAction,
    ))
        ensures
            r.0.scene@ == config.scene_name@,
            r.0.source@ == config.source_name@,
            r.0.url@ == url@,
            r.0.width == width,
            r.0.height == height,
            connected ==> r.0.state == ObsFlowState::RefreshAwaitScenes && r.1@ == ObsActionModel::ListScenes,
            !connected ==> r.0.state == ObsFlowState::Finished && r.1@ == not_connected(),
    {
        let flow = ObsFlow {
            scene: config.scene_name.clone(),
            source: config.source_name.clone(),
            url: String::from_str(url),
            width,
            height,
            state: if connected { ObsFlowState::RefreshAwaitScenes } else { ObsFlowState::Finished },
        };
        if connected {
            (flow, ObsAction::ListScenes)
        } else {
            (flow, ObsAction::Finish(Err(String::from_str("Not connected to OBS"))))
        }
    }

    /// Starts making sure that the configured scene exists and that a
    /// browser source named "Now Playing Widget" shows the widget: the
    /// scene is created when missing; an existing source gets the widget's
    /// address and size, else a new one is created in the scene.
    pub fn create_scene_and_source(
        config: &ObsConfig,
        connected: bool,
        url: &str,
        width: u32,
        height: u32,
    ) -> (r: (ObsFlow, ObsAction))
        ensures
            r.0.scene@ == config.scene_name@,
            r.0.source@ == widget_source_name(),
            r.0.url@ == url@,
            r.0.width == width,
            r.0.height == height,
            !connected ==> r.0.state == ObsFlowState::Finished && r.1@ == not_connected(),
            connected && config.scene_name@ == widget_source_name() ==> r.0.state == ObsFlowState::Finished
                && r.1@ == ObsActionModel::Finish(Err("Scene name and source name must be different"@)),
            connected && config.scene_name@ != widget_source_name() ==> r.0.state
                == ObsFlowState::CreateAwaitScenes && r.1@ == ObsActionModel::ListScenes,
    {
        let mut flow = ObsFlow {
            scene: config.scene_name.clone(),
            source: String::from_str("Now Playing Widget"),
            url: String::from_str(url),
            width,
            height,
            state: ObsFlowState::Finished,
        };
        if !connected {
            return (flow, ObsAction::Finish(Err(String::from_str("Not connected to OBS"))));
        }
        if str_equals(config.scene_name.as_str(), "Now Playing Widget") {
            return (
                flow,
                ObsAction::Finish(Err(String::from_str("Scene name and source name must be different"))),
            );
        }
        flow.state = ObsFlowState::CreateAwaitScenes;
        (flow, ObsAction::ListScenes)
    }

    /// Takes the reply to the last request (the names it listed, or the
    /// reason it failed) and gives the next request or the outcome (see
    /// `obs_step`).
    pub fn on_reply(&mut self, reply: Result<Vec<String>, String>) -> (a: ObsAction)
        requires
            old(self).state != ObsFlowState::Finished,
        ensures
            final(self).scene == old(self).scene,
            final(self).source == old(self).source,
            final(self).url == old(self).url,
            final(self).width == old(self).width,
            final(self).height == old(self).height,
            (final(self).state, a@) == obs_step(*old(self), reply_view(reply)),
            a@ matches ObsActionModel::SetSourceSettings(n, st) ==> n == old(self).source@ && st.url
                == old(self).url@ && st.width == old(self).width && st.height == old(self).height
                && st.shutdown is None,
            a@ matches ObsActionModel::CreateBrowserSource(sc, n, st) ==> sc == old(self).scene@ && n
                == old(self).source@ && st.url == old(self).url@ && st.width == old(self).width
                && st.height == old(self).height && st.shutdown == Some(false),
            a@ matches ObsActionModel::CreateScene(sc) ==> sc == old(self).scene@,
            a@ matches ObsActionModel::ListSceneItems(sc) ==> sc == old(self).scene@,
    {
        proof {
            lemma_requests_name_the_flow_targets(*old(self), reply_view(reply));
        }
        match self.state {
            ObsFlowState::RefreshAwaitScenes => match reply {
                Err(e) => {
                    self.state = ObsFlowState::Finished;
                    ObsAction::Finish(Err(e))
                },
                Ok(names) => {
                    if lists_name(&names, self.scene.as_str()) {
                        self.state = ObsFlowState::RefreshAwaitItems;
                        ObsAction::ListSceneItems { scene: self.scene.clone() }
                    } else {
                        self.state = ObsFlowState::Finished;
                        ObsAction::Finish(Ok(()))
                    }
                },
            },
            ObsFlowState::RefreshAwaitItems => match reply {
                Err(e) => {
                    self.state = ObsFlowState::Finished;
                    ObsAction::Finish(Err(e))
                },
                Ok(items) => {
                    if lists_name(&items, self.source.as_str()) {
                        self.state = ObsFlowState::RefreshAwaitUpdate;
                        ObsAction::SetSourceSettings { input: self.source.clone(), settings: self.settings(None) }
                    } else {
                        self.state = ObsFlowState::Finished;
                        ObsAction::Finish(Ok(()))
                    }
                },
            },
            ObsFlowState::RefreshAwaitUpdate => {
                self.state = ObsFlowState::Finished;
                match reply {
                    Err(e) => ObsAction::Finish(Err(prefixed("Failed to update source: ", e.as_str()))),
                    Ok(_) => ObsAction::Finish(Ok(())),
                }
            },
            ObsFlowState::CreateAwaitScenes => match reply {
                Err(e) => {
                    self.state = ObsFlowState::Finished;
                    ObsAction::Finish(Err(e))
                },
                Ok(names) => {
                    if lists_name(&names, self.scene.as_str()) {
                        self.state = ObsFlowState::CreateAwaitInputs;
                        ObsAction::ListInputs
                    } else {
                        self.state = ObsFlowState::CreateAwaitSceneCreation;
                        ObsAction::CreateScene { scene: self.scene.clone() }
                    }
                },
            },
            ObsFlowState::CreateAwaitSceneCreation => match reply {
                Err(e) => {
                    self.state = ObsFlowState::Finished;
                    ObsAction::Finish(Err(prefixed("Failed to create scene: ", e.as_str())))
                },
                Ok(_) => {
                    self.state = ObsFlowState::CreateAwaitInputs;
                    ObsAction::ListInputs
                },
            },
            ObsFlowState::CreateAwaitInputs => match reply {
                Err(e) => {
                    self.state = ObsFlowState::Finished;
                    ObsAction::Finish(Err(e))
                },
                Ok(inputs) => {
                    if lists_name(&inputs, self.source.as_str()) {
                        self.state = ObsFlowState::CreateAwaitGlobalUpdate;
                        ObsAction::SetSourceSettings { input: self.source.clone(), settings: self.settings(None) }
                    } else {
                        self.state = ObsFlowState::CreateAwaitSourceCreation;
                        ObsAction::CreateBrowserSource {
                            scene: self.scene.clone(),
                            input: self.source.clone(),
                            settings: self.settings(Some(false)),
                        }
                    }
                },
            },
            ObsFlowState::CreateAwaitGlobalUpdate => match reply {
                Err(e) => {
                    self.state = ObsFlowState::Finished;
                    ObsAction::Finish(Err(prefixed("Failed to update source: ", e.as_str())))
                },
                Ok(_) => {
                    self.state = ObsFlowState::CreateAwaitPlacement;
                    ObsAction::ListSceneItems { scene: self.scene.clone() }
                },
            },
            ObsFlowState::CreateAwaitPlacement => {
                self.state = ObsFlowState::Finished;
                match reply {
                    Err(e) => ObsAction::Finish(Err(e)),
                    Ok(_) => ObsAction::Finish(Ok(())),
                }
            },
            ObsFlowState::CreateAwaitSourceCreation => {
                self.state = ObsFlowState::Finished;
                match reply {
                    Err(e) => ObsAction::Finish(Err(prefixed("Failed to create source: ", e.as_str()))),
                    Ok(_) => ObsAction::Finish(Ok(())),
                }
            },
            ObsFlowState::Finished => ObsAction::Finish(Ok(())),
        }
    }
}

/// Why a connection is not attempted: the integration is disabled.
pub fn connect_refusal(config: &ObsConfig) -> (r: Option<String>)
    ensures
        match r {
            Some(m) => !config.enabled && m@ == "OBS WebSocket is disabled"@,
            None => config.enabled,
        },
{
    if !config.enabled {
        Some(String::from_str("OBS WebSocket is disabled"))
    } else {
        None
    }
}

/// The password to connect with: none when the configured one is empty.
pub fn connection_password(config: &ObsConfig) -> (r: Option<String>)
    ensures
        match r {
            Some(p) => config.password@.len() > 0 && p@ == config.password@,
            None => config.password@.len() == 0,
        },
{
    if config.password.as_str().is_empty() {
        None
    } else {
        Some(config.password.clone())
    }
}

/// The error reported when the connection attempt fails.
pub fn connect_failure_message(reason: &str) -> (r: String)
    ensures
        r@ == "Failed to connect: "@ + reason@,
{
    prefixed("Failed to connect: ", reason)
}

/// Every flow ends: each reply either finishes the flow or moves it
/// forward, and no state is visited twice.
pub open spec fn progress_rank(s: ObsFlowState) -> int {
    match s {
        ObsFlowState::RefreshAwaitScenes => 3,
        ObsFlowState::RefreshAwaitItems => 2,
        ObsFlowState::RefreshAwaitUpdate => 1,
        ObsFlowState::CreateAwaitScenes => 6,
        ObsFlowState::CreateAwaitSceneCreation => 5,
        ObsFlowState::CreateAwaitInputs => 4,
        ObsFlowState::CreateAwaitGlobalUpdate => 3,
        ObsFlowState::CreateAwaitPlacement => 1,
        ObsFlowState::CreateAwaitSourceCreation => 1,
        ObsFlowState::Finished => 0,
    }
}

/// Each reply to an unfinished flow strictly lowers its rank, so a flow
/// finishes after at most six replies; a flow finishes exactly when its
/// action is an outcome, and a failed request always finishes it.
pub proof fn lemma_flow_progress(f: ObsFlow, reply: Result<Seq<Seq<char>>, Seq<char>>)
    requires
        f.state != ObsFlowState::Finished,
    ensures
        progress_rank(obs_step(f, reply).0) < progress_rank(f.state),
        (obs_step(f, reply).0 == ObsFlowState::Finished) == (obs_step(f, reply).1 is Finish),
        reply is Err ==> obs_step(f, reply).0 == ObsFlowState::Finished && obs_step(f, reply).1 matches ObsActionModel::Finish(Err(_)),
{
}

/// Every request a flow makes is about what the flow was started for: the
/// settings written name the flow's source and carry the widget's address,
/// width and height unchanged (a new source is also set not to shut down,
/// an existing one keeps its shutdown setting); scenes created or listed
/// are the flow's scene.
pub proof fn lemma_requests_name_the_flow_targets(f: ObsFlow, reply: Result<Seq<Seq<char>>, Seq<char>>)
    ensures
        obs_step(f, reply).1 matches ObsActionModel::SetSourceSettings(n, st) ==> n == f.source@ && st.url
            == f.url@ && st.width == f.width && st.height == f.height && st.shutdown is None,
        obs_step(f, reply).1 matches ObsActionModel::CreateBrowserSource(sc, n, st) ==> sc == f.scene@
            && n == f.source@ && st.url == f.url@ && st.width == f.width && st.height == f.height
            && st.shutdown == Some(false),
        obs_step(f, reply).1 matches ObsActionModel::CreateScene(sc) ==> sc == f.scene@,
        obs_step(f, reply).1 matches ObsActionModel::ListSceneItems(sc) ==> sc == f.scene@,
{
}

/// Refreshing: once the scene's items are listed, the configured source is
/// updated exactly when it is among them; otherwise the flow ends well
/// without a change.
pub proof fn lemma_refresh_updates_listed_source(f: ObsFlow, items: Seq<Seq<char>>)
    requires
        f.state == ObsFlowState::RefreshAwaitItems,
    ensures
        items.contains(f.source@) ==> obs_step(f, Ok(items)).0 == ObsFlowState::RefreshAwaitUpdate
            && obs_step(f, Ok(items)).1 is SetSourceSettings,
        !items.contains(f.source@) ==> obs_step(f, Ok(items)) == (
            ObsFlowState::Finished,
            ObsActionModel::Finish(Ok(())),
        ),
{
}

/// Creating: once the inputs are listed, the widget's source is updated
/// when it exists and created in the scene otherwise; and the scene is
/// created exactly when it is not listed.
pub proof fn lemma_create_decisions(f: ObsFlow, names: Seq<Seq<char>>)
    ensures
        f.state == ObsFlowState::CreateAwaitInputs && names.contains(f.source@) ==> obs_step(
            f,
            Ok(names),
        ).1 is SetSourceSettings,
        f.state == ObsFlowState::CreateAwaitInputs && !names.contains(f.source@) ==> obs_step(
            f,
            Ok(names),
        ).1 is CreateBrowserSource,
        f.state == ObsFlowState::CreateAwaitScenes && names.contains(f.scene@) ==> obs_step(f, Ok(names)).1
            is ListInputs,
        f.state == ObsFlowState::CreateAwaitScenes && !names.contains(f.scene@) ==> obs_step(
            f,
            Ok(names),
        ).1 is CreateScene,
{
}

// ---------------------------------------------------------------------------
// A model of OBS, for stating what the flows do to it
// ---------------------------------------------------------------------------

/// An input in OBS: its name, the scenes that show it, and the browser
/// source settings it holds.
pub struct InputModel {
    pub name: Seq<char>,
    pub scenes: Seq<Seq<char>>,
    pub url: Option<Seq<char>>,
    pub width: Option<u32>,
    pub height: Option<u32>,
    pub shutdown: Option<bool>,
}

/// The part of OBS that the flows read and change: its scenes and inputs.
pub struct ObsModel {
    pub scenes: Seq<Seq<char>>,
    pub inputs: Seq<InputModel>,
}

/// The names of the inputs, in order.
pub open spec fn input_names(inputs: Seq<InputModel>) -> Seq<Seq<char>> {
    inputs.map_values(|i: InputModel| i.name)
}

/// An input with settings overlaid on its own: address and size replaced,
/// and the shutdown flag replaced when the new settings carry one.
pub open spec fn overlay(i: InputModel, s: SettingsModel) -> InputModel {
    InputModel {
        url: Some(s.url),
        width: Some(s.width),
        height: Some(s.height),
        shutdown: match s.shutdown {
            Some(b) => Some(b),
            None => i.shutdown,
        },
        ..i
    }
}

/// Overlays the settings on every input of that name.
pub open spec fn overlay_named(inputs: Seq<InputModel>, name: Seq<char>, s: SettingsModel) -> Seq<InputModel> {
    inputs.map_values(|i: InputModel| if i.name == name { overlay(i, s) } else { i })
}

/// OBS after a request succeeds.
pub open spec fn obs_apply(m: ObsModel, a: ObsActionModel) -> ObsModel {
    match a {
        ObsActionModel::CreateScene(scene) => ObsModel { scenes: m.scenes.push(scene), ..m },
        ObsActionModel::SetSourceSettings(name, st) => ObsModel { inputs: overlay_named(m.inputs, name, st), ..m },
        ObsActionModel::CreateBrowserSource(scene, name, st) => ObsModel {
            inputs: m.inputs.push(
                InputModel {
                    name,
                    scenes: seq![scene],
                    url: Some(st.url),
                    width: Some(st.width),
                    height: Some(st.height),
                    shutdown: st.shutdown,
                },
            ),
            ..m
        },
        _ => m,
    }
}

/// OBS's reply to a request that succeeds: the names it lists.
pub open spec fn obs_reply(m: ObsModel, a: ObsActionModel) -> Result<Seq<Seq<char>>, Seq<char>> {
    match a {
        ObsActionModel::ListScenes => Ok(m.scenes),
        ObsActionModel::ListInputs => Ok(input_names(m.inputs)),
        ObsActionModel::ListSceneItems(scene) => Ok(
            input_names(m.inputs.filter(|i: InputModel| i.scenes.contains(scene))),
        ),
        _ => Ok(Seq::empty()),
    }
}

/// A flow run to its end against OBS, every request succeeding: OBS
/// afterwards, and the outcome. (Each reply lowers the flow's rank, so the
/// run ends.)
pub open spec fn run_flow(f: ObsFlow, a: ObsActionModel, m: ObsModel) -> (ObsModel, Result<(), Seq<char>>)
    decreases progress_rank(f.state) + (if a is Finish { 0int } else { 1int }),
{
    match a {
        ObsActionModel::Finish(outcome) => (m, outcome),
        _ => {
            let next = obs_step(f, obs_reply(m, a));
            run_flow(ObsFlow { state: next.0, ..f }, next.1, obs_apply(m, a))
        },
    }
}

/// Overlaying the same settings twice is overlaying them once.
proof fn lemma_overlay_named_twice(inputs: Seq<InputModel>, name: Seq<char>, s: SettingsModel)
    ensures
        overlay_named(overlay_named(inputs, name, s), name, s) == overlay_named(inputs, name, s),
{
    assert(overlay_named(overlay_named(inputs, name, s), name, s) =~= overlay_named(inputs, name, s));
}

/// OBS after the create flow, from listing the inputs on: the widget's
/// source updated when it exists, else created in the scene.
pub open spec fn after_inputs(f: ObsFlow, m: ObsModel) -> ObsModel {
    if input_names(m.inputs).contains(f.source@) {
        ObsModel { inputs: overlay_named(m.inputs, f.source@, widget_settings(f, None)), ..m }
    } else {
        obs_apply(m, ObsActionModel::CreateBrowserSource(f.scene@, f.source@, widget_settings(f, Some(false))))
    }
}

/// The create flow from listing the inputs on.
proof fn lemma_create_from_inputs(f: ObsFlow, m: ObsModel)
    requires
        f.state == ObsFlowState::CreateAwaitInputs,
    ensures
        run_flow(f, ObsActionModel::ListInputs, m) == (after_inputs(f, m), Ok::<(), Seq<char>>(())),
{
    let r = obs_reply(m, ObsActionModel::ListInputs);
    assert(obs_apply(m, ObsActionModel::ListInputs) == m);
    let fin = ObsFlow { state: ObsFlowState::Finished, ..f };
    if input_names(m.inputs).contains(f.source@) {
        let a1 = ObsActionModel::SetSourceSettings(f.source@, widget_settings(f, None));
        let g1 = ObsFlow { state: ObsFlowState::CreateAwaitGlobalUpdate, ..f };
        assert(obs_step(f, r) == (ObsFlowState::CreateAwaitGlobalUpdate, a1));
        assert(run_flow(f, ObsActionModel::ListInputs, m) == run_flow(g1, a1, m));
        let m1 = obs_apply(m, a1);
        let a2 = ObsActionModel::ListSceneItems(f.scene@);
        let g2 = ObsFlow { state: ObsFlowState::CreateAwaitPlacement, ..f };
        assert(widget_settings(g1, None) == widget_settings(f, None));
        assert(obs_step(g1, obs_reply(m, a1)) == (ObsFlowState::CreateAwaitPlacement, a2));
        assert(run_flow(g1, a1, m) == run_flow(g2, a2, m1));
        assert(obs_apply(m1, a2) == m1);
        assert(obs_step(g2, obs_reply(m1, a2)) == (ObsFlowState::Finished, done()));
        assert(run_flow(g2, a2, m1) == run_flow(fin, done(), m1));
        assert(m1 == after_inputs(f, m));
    } else {
        let a1 = ObsActionModel::CreateBrowserSource(f.scene@, f.source@, widget_settings(f, Some(false)));
        let g1 = ObsFlow { state: ObsFlowState::CreateAwaitSourceCreation, ..f };
        assert(obs_step(f, r) == (ObsFlowState::CreateAwaitSourceCreation, a1));
        assert(run_flow(f, ObsActionModel::ListInputs, m) == run_flow(g1, a1, m));
        assert(obs_step(g1, obs_reply(m, a1)) == (ObsFlowState::Finished, done()));
        assert(run_flow(g1, a1, m) == run_flow(fin, done(), obs_apply(m, a1)));
    }
}

/// OBS once the create flow has made sure the scene exists.
pub open spec fn with_scene(f: ObsFlow, m: ObsModel) -> ObsModel {
    if m.scenes.contains(f.scene@) {
        m
    } else {
        ObsModel { scenes: m.scenes.push(f.scene@), ..m }
    }
}

/// The first steps of the create flow: listing the scenes, and creating
/// the scene when it is missing.
proof fn lemma_create_to_inputs(f: ObsFlow, m: ObsModel)
    requires
        f.state == ObsFlowState::CreateAwaitScenes,
    ensures
        with_scene(f, m).scenes.contains(f.scene@),
        with_scene(f, m).inputs == m.inputs,
        run_flow(f, ObsActionModel::ListScenes, m) == run_flow(
            ObsFlow { state: ObsFlowState::CreateAwaitInputs, ..f },
            ObsActionModel::ListInputs,
            with_scene(f, m),
        ),
{
    let g = ObsFlow { state: ObsFlowState::CreateAwaitInputs, ..f };
    let r = obs_reply(m, ObsActionModel::ListScenes);
    assert(obs_apply(m, ObsActionModel::ListScenes) == m);
    if m.scenes.contains(f.scene@) {
        assert(obs_step(f, r) == (ObsFlowState::CreateAwaitInputs, ObsActionModel::ListInputs));
    } else {
        let a1 = ObsActionModel::CreateScene(f.scene@);
        let g1 = ObsFlow { state: ObsFlowState::CreateAwaitSceneCreation, ..f };
        assert(obs_step(f, r) == (ObsFlowState::CreateAwaitSceneCreation, a1));
        assert(run_flow(f, ObsActionModel::ListScenes, m) == run_flow(g1, a1, m));
        let m1 = with_scene(f, m);
        assert(obs_apply(m, a1) == m1);
        assert(m1.scenes[m.scenes.len() as int] == f.scene@);
        assert(obs_step(g1, obs_reply(m, a1)) == (ObsFlowState::CreateAwaitInputs, ObsActionModel::ListInputs));
        assert(run_flow(g1, a1, m) == run_flow(g, ObsActionModel::ListInputs, m1));
    }
}

/// Creating the scene and the widget's source is idempotent: when every
/// request succeeds, a first run ends well, and a second run from the OBS
/// that the first left ends well and leaves OBS as it was.
pub proof fn lemma_create_flow_idempotent(f: ObsFlow, m0: ObsModel)
    requires
        f.state == ObsFlowState::CreateAwaitScenes,
    ensures
        run_flow(f, ObsActionModel::ListScenes, m0).1 == Ok::<(), Seq<char>>(()),
        run_flow(f, ObsActionModel::ListScenes, run_flow(f, ObsActionModel::ListScenes, m0).0) == run_flow(
            f,
            ObsActionModel::ListScenes,
            m0,
        ),
{
    let g = ObsFlow { state: ObsFlowState::CreateAwaitInputs, ..f };
    assert(widget_settings(g, None) == widget_settings(f, None));
    assert(widget_settings(g, Some(false)) == widget_settings(f, Some(false)));
    let st_update = widget_settings(f, None);
    let st_create = widget_settings(f, Some(false));
    lemma_create_to_inputs(f, m0);
    let m1 = with_scene(f, m0);
    lemma_create_from_inputs(g, m1);
    let m2 = after_inputs(g, m1);
    assert(run_flow(f, ObsActionModel::ListScenes, m0) == (m2, Ok::<(), Seq<char>>(())));
    assert(m2.scenes.contains(f.scene@)) by {
        assert(m2.scenes == m1.scenes);
    }
    lemma_create_to_inputs(f, m2);
    assert(with_scene(f, m2) == m2);
    lemma_create_from_inputs(g, m2);
    if input_names(m1.inputs).contains(f.source@) {
        let j = choose|j: int| 0 <= j < input_names(m1.inputs).len() && input_names(m1.inputs)[j] == f.source@;
        assert(input_names(m2.inputs)[j] == f.source@);
        assert(input_names(m2.inputs).contains(f.source@));
        lemma_overlay_named_twice(m1.inputs, f.source@, st_update);
        assert(after_inputs(g, m2) == m2);
    } else {
        let created = InputModel {
            name: f.source@,
            scenes: seq![f.scene@],
            url: Some(st_create.url),
            width: Some(st_create.width),
            height: Some(st_create.height),
            shutdown: st_create.shutdown,
        };
        assert(m2.inputs == m1.inputs.push(created));
        let k = m1.inputs.len() as int;
        assert(input_names(m2.inputs)[k] == f.source@);
        assert(input_names(m2.inputs).contains(f.source@));
        assert(overlay_named(m2.inputs, f.source@, st_update) =~= m2.inputs) by {
            assert forall|i: int| 0 <= i < m2.inputs.len() implies #[trigger] overlay_named(
                m2.inputs,
                f.source@,
                st_update,
            )[i] == m2.inputs[i] by {
                if i < k {
                    assert(input_names(m1.inputs)[i] == m1.inputs[i].name);
                    assert(m1.inputs[i].name != f.source@);
                }
            }
        }
        assert(after_inputs(g, m2) == m2);
    }
}

} // verus!
