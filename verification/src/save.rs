use vstd::prelude::*;
use vstd::string::StringExecFns;
use crate::registry::{Allowed, EditorRegistry};
use crate::scene::{extract_scene, extracted, DetachedScene, SceneEntityView};
use crate::world::{
    cleared, delete_prepared_children, no_child_links, prepare_children, prepared, EntityView,
    World,
};

verus! {

/// Where a saved prefab goes.
#[derive(Clone, Debug)]
pub enum EditorPrefabPath {
    /// A file, written in the background.
    File(String),
    /// The in-process cache slot.
    MemoryCache,
}

/// The save configuration: at most one destination.
#[derive(Clone, Debug)]
pub struct SaveConfig {
    pub path: Option<EditorPrefabPath>,
}

/// Mathematical value of a [`SaveConfig`].
pub enum Destination {
    Nowhere,
    File(Seq<char>),
    MemoryCache,
}

impl View for SaveConfig {
    type V = Destination;

    open spec fn view(&self) -> Destination {
        match self.path {
            None => Destination::Nowhere,
            Some(EditorPrefabPath::File(path)) => Destination::File(path@),
            Some(EditorPrefabPath::MemoryCache) => Destination::MemoryCache,
        }
    }
}

impl Default for SaveConfig {
    /// No destination.
    fn default() -> (config: Self)
        ensures
            config@ == Destination::Nowhere,
    {
        SaveConfig { path: None }
    }
}

/// Phase of the save state machine.
#[derive(Clone, Copy, Debug, PartialEq, Eq, Structural, Hash)]
pub enum SaveState {
    /// A save has been requested and runs on the next update.
    Save,
    /// No save is in flight.
    Idle,
}

impl Default for SaveState {
    /// The machine starts idle.
    fn default() -> (state: Self)
        ensures
            state == SaveState::Idle,
    {
        SaveState::Idle
    }
}

/// The in-process cache slot: the last scene saved to memory.
#[derive(Debug)]
pub struct PrefabMemoryCache {
    pub scene: Option<DetachedScene>,
}

impl View for PrefabMemoryCache {
    type V = Option<Seq<SceneEntityView>>;

    open spec fn view(&self) -> Option<Seq<SceneEntityView>> {
        match self.scene {
            Some(scene) => Some(scene@),
            None => None,
        }
    }
}

/// How serious a notification is.
#[derive(Clone, Copy, Debug, PartialEq, Eq, Structural)]
pub enum ToastKind {
    Info,
    Warning,
    Error,
}

/// A message for the notification channel.
#[derive(Debug)]
pub enum Notification {
    /// The save found no root.
    EmptyScene,
    /// The scene could not be encoded; the cause is attached.
    SerializationFailed(String),
    /// The background write to the file at this path succeeded.
    Saved(String),
    /// The background write failed; the cause is attached.
    WriteFailed(String),
}

/// Mathematical value of a [`Notification`].
pub enum NotificationView {
    EmptyScene,
    SerializationFailed(Seq<char>),
    Saved(Seq<char>),
    WriteFailed(Seq<char>),
}

impl View for Notification {
    type V = NotificationView;

    open spec fn view(&self) -> NotificationView {
        match self {
            Notification::EmptyScene => NotificationView::EmptyScene,
            Notification::SerializationFailed(cause) => NotificationView::SerializationFailed(cause@),
            Notification::Saved(path) => NotificationView::Saved(path@),
            Notification::WriteFailed(cause) => NotificationView::WriteFailed(cause@),
        }
    }
}

/// The text of a notification.
pub open spec fn notification_text(n: NotificationView) -> Seq<char> {
    match n {
        NotificationView::EmptyScene => "Saving empty scene"@,
        NotificationView::SerializationFailed(cause) => "failed to serialize prefab: "@ + cause,
        NotificationView::Saved(path) => "Saved prefab to file "@ + path,
        NotificationView::WriteFailed(cause) => "Error while writing scene to file: "@ + cause,
    }
}

/// How serious a notification is: a finished write is information, an
/// empty scene a warning, a failed encoding or write an error.
pub open spec fn notification_kind(n: NotificationView) -> ToastKind {
    match n {
        NotificationView::EmptyScene => ToastKind::Warning,
        NotificationView::SerializationFailed(_) => ToastKind::Error,
        NotificationView::Saved(_) => ToastKind::Info,
        NotificationView::WriteFailed(_) => ToastKind::Error,
    }
}

/// What the background write reports: success names the path, failure
/// the cause.
pub open spec fn write_notice(path: Seq<char>, outcome: Result<(), Seq<char>>) -> NotificationView {
    match outcome {
        Ok(_) => NotificationView::Saved(path),
        Err(cause) => NotificationView::WriteFailed(cause),
    }
}

/// The outcome of a write: done, or the cause of the failure.
pub open spec fn outcome_view(outcome: Result<(), String>) -> Result<(), Seq<char>> {
    match outcome {
        Ok(_) => Ok(()),
        Err(cause) => Err(cause@),
    }
}

/// Turns the outcome of the background write of `path` into the
/// notification that reports it. The save itself is not affected.
pub fn write_finished(path: String, outcome: Result<(), String>) -> (notice: Notification)
    ensures
        notice@ == write_notice(path@, outcome_view(outcome)),
{
    match outcome {
        Ok(_) => Notification::Saved(path),
        Err(cause) => Notification::WriteFailed(cause),
    }
}

impl Notification {
    /// How serious the notification is.
    pub fn kind(&self) -> (kind: ToastKind)
        ensures
            kind == notification_kind(self@),
    {
        match self {
            Notification::EmptyScene => ToastKind::Warning,
            Notification::SerializationFailed(_) => ToastKind::Error,
            Notification::Saved(_) => ToastKind::Info,
            Notification::WriteFailed(_) => ToastKind::Error,
        }
    }

    /// The message as shown to the user.
    pub fn text(&self) -> (text: String)
        ensures
            text@ == notification_text(self@),
    {
        match self {
            Notification::EmptyScene => String::from_str("Saving empty scene"),
            Notification::SerializationFailed(cause) => {
                String::from_str("failed to serialize prefab: ").concat(cause.as_str())
            },
            Notification::Saved(path) => String::from_str("Saved prefab to file ").concat(path.as_str()),
            Notification::WriteFailed(cause) => {
                String::from_str("Error while writing scene to file: ").concat(cause.as_str())
            },
        }
    }
}

/// What the host has to do in the background once a save has returned.
#[derive(Debug)]
pub enum SinkAction {
    /// Nothing is written.
    Nothing,
    /// Create or truncate the file at `path` and write `text` to it.
    WriteFile { path: String, text: String },
}

/// Mathematical value of a [`SinkAction`].
pub enum SinkActionView {
    Nothing,
    WriteFile { path: Seq<char>, text: Seq<char> },
}

impl View for SinkAction {
    type V = SinkActionView;

    open spec fn view(&self) -> SinkActionView {
        match self {
            SinkAction::Nothing => SinkActionView::Nothing,
            SinkAction::WriteFile { path, text } => SinkActionView::WriteFile {
                path: path@,
                text: text@,
            },
        }
    }
}

/// What a save hands back: the notifications it raised, in order, and the
/// background work that is left to the host.
#[derive(Debug)]
pub struct SaveReport {
    pub notifications: Vec<Notification>,
    pub action: SinkAction,
}

/// Mathematical value of a [`SaveReport`].
pub struct SaveReportView {
    pub notifications: Seq<NotificationView>,
    pub action: SinkActionView,
}

impl View for SaveReport {
    type V = SaveReportView;

    open spec fn view(&self) -> SaveReportView {
        SaveReportView {
            notifications: self.notifications@.map_values(|n: Notification| n@),
            action: self.action@,
        }
    }
}

/// The outcome of encoding: the text, or the cause of the failure.
pub open spec fn encoded_view(encoded: Result<String, String>) -> Result<Seq<char>, Seq<char>> {
    match encoded {
        Ok(text) => Ok(text@),
        Err(cause) => Err(cause@),
    }
}

/// The background work that follows an encoding: a file is written only
/// when the encoding succeeded and the destination is a file.
pub open spec fn sink_action(dest: Destination, encoded: Result<Seq<char>, Seq<char>>) -> SinkActionView {
    match (encoded, dest) {
        (Ok(text), Destination::File(path)) => SinkActionView::WriteFile { path, text },
        _ => SinkActionView::Nothing,
    }
}

/// The cache slot after a save: replaced by the scene only when the
/// encoding succeeded and the destination is the cache.
pub open spec fn cache_after(
    cache: Option<Seq<SceneEntityView>>,
    dest: Destination,
    scene: Seq<SceneEntityView>,
    encoded: Result<Seq<char>, Seq<char>>,
) -> Option<Seq<SceneEntityView>> {
    match (encoded, dest) {
        (Ok(_), Destination::MemoryCache) => Some(scene),
        _ => cache,
    }
}

/// The notifications of the sink: one error when the encoding failed.
pub open spec fn failure_notice(encoded: Result<Seq<char>, Seq<char>>) -> Seq<NotificationView> {
    match encoded {
        Ok(_) => seq![],
        Err(cause) => seq![NotificationView::SerializationFailed(cause)],
    }
}

/// The notifications of root selection: one warning when there is no root.
pub open spec fn empty_notice(scene: Seq<SceneEntityView>) -> Seq<NotificationView> {
    if scene.len() == 0 {
        seq![NotificationView::EmptyScene]
    } else {
        seq![]
    }
}

/// Sink dispatch: delivers an encoded scene to the configured destination
/// and nowhere else. A file is left to the host as background work; the
/// cache slot is replaced at once. After a failed encoding nothing is
/// written or cached and one error is raised.
pub fn dispatch(
    config: &SaveConfig,
    cache: &mut PrefabMemoryCache,
    scene: DetachedScene,
    encoded: Result<String, String>,
) -> (report: SaveReport)
    ensures
        report@.action == sink_action(config@, encoded_view(encoded)),
        report@.notifications == failure_notice(encoded_view(encoded)),
        final(cache)@ == cache_after(old(cache)@, config@, scene@, encoded_view(encoded)),
{
    let mut notifications: Vec<Notification> = Vec::new();
    let mut action = SinkAction::Nothing;
    match encoded {
        Ok(text) => {
            match &config.path {
                Some(EditorPrefabPath::File(path)) => {
                    action = SinkAction::WriteFile { path: path.clone(), text };
                },
                Some(EditorPrefabPath::MemoryCache) => {
                    cache.scene = Some(scene);
                },
                None => {},
            }
        },
        Err(cause) => {
            notifications.push(Notification::SerializationFailed(cause));
        },
    }
    let report = SaveReport { notifications, action };
    assert(report@.notifications =~= failure_notice(encoded_view(encoded)));
    report
}

/// The editor state that a save works on.
#[derive(Debug)]
pub struct Editor {
    pub world: World,
    pub registry: EditorRegistry,
    pub config: SaveConfig,
    pub cache: PrefabMemoryCache,
    pub state: SaveState,
}

/// The report of a save whose encoding came out as `encoded`.
pub open spec fn report_of(
    world: Seq<EntityView>,
    allow: Allowed,
    dest: Destination,
    encoded: Result<Seq<char>, Seq<char>>,
) -> SaveReportView {
    SaveReportView {
        notifications: empty_notice(extracted(world, allow)) + failure_notice(encoded),
        action: sink_action(dest, encoded),
    }
}

/// Closes a save whose scene has been extracted and handed to the encoder:
/// raises the empty-scene warning where the scene has no entity,
/// dispatches, and returns the machine to idle whatever the encoding gave.
pub fn finish_save(
    editor: &mut Editor,
    scene: DetachedScene,
    encoded: Result<String, String>,
) -> (report: SaveReport)
    ensures
        report@.notifications == empty_notice(scene@) + failure_notice(encoded_view(encoded)),
        report@.action == sink_action(old(editor).config@, encoded_view(encoded)),
        final(editor).cache@ == cache_after(
            old(editor).cache@,
            old(editor).config@,
            scene@,
            encoded_view(encoded),
        ),
        final(editor).state == SaveState::Idle,
        final(editor).world == old(editor).world,
        final(editor).registry == old(editor).registry,
        final(editor).config == old(editor).config,
{
    let empty = scene.entities.len() == 0;
    let sent = dispatch(&editor.config, &mut editor.cache, scene, encoded);
    let SaveReport { notifications: mut failures, action } = sent;
    let mut notifications: Vec<Notification> = Vec::new();
    if empty {
        notifications.push(Notification::EmptyScene);
    }
    let ghost first = notifications@.map_values(|n: Notification| n@);
    let ghost second = failures@.map_values(|n: Notification| n@);
    assert(first =~= empty_notice(scene@));
    notifications.append(&mut failures);
    editor.state = SaveState::Idle;
    let report = SaveReport { notifications, action };
    assert(report@.notifications =~= first + second);
    report
}

/// Whether `report` and `cache` are what a save of `world` gives when the
/// encoder, handed the extracted scene, answers `encoded`.
pub open spec fn save_outcome(
    world: Seq<EntityView>,
    allow: Allowed,
    dest: Destination,
    cache_before: Option<Seq<SceneEntityView>>,
    encoded: Result<Seq<char>, Seq<char>>,
    report: SaveReportView,
    cache: Option<Seq<SceneEntityView>>,
) -> bool {
    &&& report == report_of(world, allow, dest, encoded)
    &&& cache == cache_after(cache_before, dest, extracted(world, allow), encoded)
}

/// Converts the world to a prefab: selects the save roots, takes the
/// allow-list from the registry as it is now, extracts the scene, has it
/// encoded and dispatches the outcome. The world is only read. The
/// encoder is handed exactly the extracted scene; whatever it answers,
/// the report and the cache are those that [`finish_save`] gives for that
/// answer, and the machine is idle.
pub fn serialize_scene<F: Fn(&DetachedScene) -> Result<String, String>>(
    editor: &mut Editor,
    encode: F,
) -> (report: SaveReport)
    requires
        forall|scene: DetachedScene| call_requires(encode, (&scene,)),
    ensures
        exists|scene: DetachedScene, encoded: Result<String, String>|
            {
                &&& scene@ == extracted(old(editor).world@, old(editor).registry@)
                &&& #[trigger] call_ensures(encode, (&scene,), encoded)
                &&& save_outcome(
                    old(editor).world@,
                    old(editor).registry@,
                    old(editor).config@,
                    old(editor).cache@,
                    encoded_view(encoded),
                    report@,
                    final(editor).cache@,
                )
            },
        final(editor).state == SaveState::Idle,
        final(editor).world == old(editor).world,
        final(editor).registry == old(editor).registry,
        final(editor).config == old(editor).config,
{
    let allow = editor.registry.allow_list();
    let scene = extract_scene(&editor.world, &allow);
    let encoded = encode(&scene);
    let ghost handed = scene;
    let report = finish_save(editor, scene, encoded);
    assert(call_ensures(encode, (&handed,), encoded));
    assert(report@ == report_of(
        old(editor).world@,
        old(editor).registry@,
        old(editor).config@,
        encoded_view(encoded),
    ));
    report
}

/// Registers what a save needs.
pub struct SaveResourcesPrefabPlugin;

impl SaveResourcesPrefabPlugin {
    /// Registers the child-link record as a serializable component type.
    pub fn build(&self, editor: &mut Editor)
        ensures
            final(editor).registry@ == (Allowed { children_prefab: true, ..old(editor).registry@ }),
            final(editor).world == old(editor).world,
            final(editor).config == old(editor).config,
            final(editor).cache == old(editor).cache,
            final(editor).state == old(editor).state,
    {
        editor.registry.register_children_prefab();
    }
}

/// The save pipeline as a state machine.
pub struct SavePrefabPlugin;

impl SavePrefabPlugin {
    /// Sets the editor up for saving.
    pub fn build(&self, editor: &mut Editor)
        ensures
            final(editor).registry@ == (Allowed { children_prefab: true, ..old(editor).registry@ }),
            final(editor).world == old(editor).world,
            final(editor).config == old(editor).config,
            final(editor).cache == old(editor).cache,
            final(editor).state == old(editor).state,
    {
        let resources = SaveResourcesPrefabPlugin;
        resources.build(editor);
    }

    /// The external trigger: asks for a save.
    pub fn request_save(&self, editor: &mut Editor)
        ensures
            final(editor).state == SaveState::Save,
            final(editor).world == old(editor).world,
            final(editor).registry == old(editor).registry,
            final(editor).config == old(editor).config,
            final(editor).cache == old(editor).cache,
    {
        editor.state = SaveState::Save;
    }

    /// One save cycle: child-link capture, then extraction, encoding and
    /// dispatch on the world that holds the records, then cleanup. The
    /// records are removed and the machine is idle whether or not the
    /// encoding succeeded.
    pub fn on_enter_save<F: Fn(&DetachedScene) -> Result<String, String>>(
        &self,
        editor: &mut Editor,
        encode: F,
    ) -> (report: SaveReport)
        requires
            forall|scene: DetachedScene| call_requires(encode, (&scene,)),
        ensures
            exists|scene: DetachedScene, encoded: Result<String, String>|
                {
                    &&& scene@ == extracted(prepared(old(editor).world@), old(editor).registry@)
                    &&& #[trigger] call_ensures(encode, (&scene,), encoded)
                    &&& save_outcome(
                        prepared(old(editor).world@),
                        old(editor).registry@,
                        old(editor).config@,
                        old(editor).cache@,
                        encoded_view(encoded),
                        report@,
                        final(editor).cache@,
                    )
                },
            final(editor).world@ == cleared(prepared(old(editor).world@)),
            no_child_links(final(editor).world@),
            final(editor).state == SaveState::Idle,
            final(editor).registry == old(editor).registry,
            final(editor).config == old(editor).config,
    {
        prepare_children(&mut editor.world);
        let report = serialize_scene(editor, encode);
        delete_prepared_children(&mut editor.world);
        report
    }

    /// One tick of the machine: runs a save cycle if one was requested,
    /// and does nothing while idle.
    pub fn update<F: Fn(&DetachedScene) -> Result<String, String>>(
        &self,
        editor: &mut Editor,
        encode: F,
    ) -> (report: Option<SaveReport>)
        requires
            forall|scene: DetachedScene| call_requires(encode, (&scene,)),
        ensures
            final(editor).state == SaveState::Idle,
            old(editor).state == SaveState::Idle ==> report is None && *final(editor) == *old(editor),
            old(editor).state == SaveState::Save ==> report is Some && final(editor).world@ == cleared(
                prepared(old(editor).world@),
            ) && exists|scene: DetachedScene, encoded: Result<String, String>|
                {
                    &&& scene@ == extracted(prepared(old(editor).world@), old(editor).registry@)
                    &&& #[trigger] call_ensures(encode, (&scene,), encoded)
                    &&& save_outcome(
                        prepared(old(editor).world@),
                        old(editor).registry@,
                        old(editor).config@,
                        old(editor).cache@,
                        encoded_view(encoded),
                        report.unwrap()@,
                        final(editor).cache@,
                    )
                },
            no_child_links(old(editor).world@) ==> no_child_links(final(editor).world@),
            final(editor).registry == old(editor).registry,
            final(editor).config == old(editor).config,
    {
        match editor.state {
            SaveState::Idle => None,
            SaveState::Save => Some(self.on_enter_save(editor, encode)),
        }
    }
}

} // verus!
