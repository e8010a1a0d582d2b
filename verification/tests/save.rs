use std::any::TypeId;

use space_prefab::children::{ChildrenPrefab, EntityMapper};
use space_prefab::registry::EditorRegistry;
use space_prefab::save::{
    dispatch, finish_save, serialize_scene, write_finished, Editor, EditorPrefabPath,
    Notification, PrefabMemoryCache, SaveConfig, SavePrefabPlugin, SaveReport,
    SaveResourcesPrefabPlugin, SaveState, SinkAction, ToastKind,
};
use space_prefab::scene::{
    extract_components, extract_scene, select_roots, DetachedScene, SceneEntity,
};
use space_prefab::world::{
    delete_prepared_children, prepare_children, Component, EntityRecord, World,
};

struct Name;
struct PrefabMarker;
struct Transform;

fn name_type() -> TypeId {
    TypeId::of::<Name>()
}

fn marker_type() -> TypeId {
    TypeId::of::<PrefabMarker>()
}

fn transform_type() -> TypeId {
    TypeId::of::<Transform>()
}

fn name_of(type_id: TypeId) -> String {
    if type_id == name_type() {
        String::from("bevy_core::name::Name")
    } else if type_id == marker_type() {
        String::from("space_shared::PrefabMarker")
    } else {
        format!("{:?}", type_id)
    }
}

/// Writes one line per entity and one per component.
fn encode_text(scene: &DetachedScene) -> Result<String, String> {
    let mut text = String::new();
    for (index, entity) in scene.entities.iter().enumerate() {
        text.push_str(&format!("{}: (\n", index));
        for component in entity.components.iter() {
            text.push_str(&format!(
                "  \"{}\": ({}),\n",
                name_of(component.type_id),
                component.value
            ));
        }
        if let Some(link) = &entity.children {
            text.push_str(&format!(
                "  \"{}\": ({:?}),\n",
                "space_prefab::children::ChildrenPrefab", link.0
            ));
        }
        text.push_str("),\n");
    }
    Ok(text)
}

/// Fails on every scene.
fn encode_fails(_scene: &DetachedScene) -> Result<String, String> {
    Err(String::from("unsupported value"))
}

fn component(type_id: TypeId, value: &str) -> Component {
    Component { type_id, value: String::from(value) }
}

fn spawn_empty(world: &mut World) -> u64 {
    let id = world.entities.len() as u64;
    world.entities.push(EntityRecord {
        id,
        prefab_marker: false,
        scene_auto_child: false,
        children: Vec::new(),
        components: Vec::new(),
        children_prefab: None,
    });
    id
}

fn spawn_marked(world: &mut World, auto_child: bool, children: Vec<u64>) -> u64 {
    let id = spawn_empty(world);
    let record = world.entities.last_mut().unwrap();
    record.prefab_marker = true;
    record.scene_auto_child = auto_child;
    record.children = children;
    record.components.push(component(marker_type(), ""));
    id
}

fn linked(world: &World) -> usize {
    world.entities.iter().filter(|e| e.children_prefab.is_some()).count()
}

fn editor(world: World, path: Option<EditorPrefabPath>) -> Editor {
    let mut editor = Editor {
        world,
        registry: EditorRegistry::new(),
        config: SaveConfig { path },
        cache: PrefabMemoryCache { scene: None },
        state: SaveState::default(),
    };
    SaveResourcesPrefabPlugin.build(&mut editor);
    editor.registry.register(name_type());
    editor.registry.register(marker_type());
    editor
}

/// A root with one child, and a named root.
fn two_roots(name: &str) -> World {
    let mut world = World::new();
    let child_id = spawn_empty(&mut world);
    spawn_marked(&mut world, false, vec![child_id]);
    spawn_marked(&mut world, false, Vec::new());
    world.entities.last_mut().unwrap().components.push(component(name_type(), name));
    world
}

#[test]
fn save_to_memory() {
    let mut editor = editor(two_roots("name"), Some(EditorPrefabPath::MemoryCache));

    serialize_scene(&mut editor, encode_text);
    assert!(editor.cache.scene.is_some());
}

#[test]
fn inserts_prepared_children_component() {
    let mut world = World::new();
    let child_id = spawn_empty(&mut world);
    spawn_marked(&mut world, false, vec![child_id]);
    spawn_marked(&mut world, false, Vec::new());

    prepare_children(&mut world);

    assert_eq!(linked(&world), 1);
}

#[test]
fn deletes_prepared_children_component() {
    let mut world = World::new();
    let child_id = spawn_empty(&mut world);
    spawn_marked(&mut world, false, Vec::new());
    world.entities.last_mut().unwrap().children_prefab = Some(ChildrenPrefab(vec![child_id]));
    let child_id = spawn_empty(&mut world);
    spawn_marked(&mut world, false, Vec::new());
    world.entities.last_mut().unwrap().children_prefab = Some(ChildrenPrefab(vec![child_id]));
    spawn_marked(&mut world, false, Vec::new());

    delete_prepared_children(&mut world);

    assert_eq!(linked(&world), 0);
}

#[test]
fn child_prefab_from_children() {
    let mut world = World::new();
    let child = spawn_empty(&mut world);
    spawn_marked(&mut world, false, vec![child]);

    let children = &world.entities[1].children;
    let prefab = ChildrenPrefab::from_children(children);

    assert_eq!(prefab.0.len(), 1);
}

#[test]
fn attempts_to_serialize_empty_scene() {
    let mut editor = editor(World::new(), Some(EditorPrefabPath::MemoryCache));

    let report = serialize_scene(&mut editor, encode_text);

    report.notifications.iter().for_each(|e| assert_eq!(e.text(), "Saving empty scene"));
}

#[test]
fn prepared_children_ignores_scene_auto_child_component() {
    let mut world = World::new();
    let child_id = spawn_empty(&mut world);
    spawn_marked(&mut world, true, vec![child_id]);
    let child_id = spawn_empty(&mut world);
    spawn_marked(&mut world, false, vec![child_id]);
    spawn_marked(&mut world, false, Vec::new());

    prepare_children(&mut world);

    assert_eq!(linked(&world), 1);
}

#[test]
fn empty_world_saves_an_empty_scene_with_one_warning() {
    let mut editor = editor(World::new(), Some(EditorPrefabPath::MemoryCache));
    editor.state = SaveState::Save;

    let report = SavePrefabPlugin.on_enter_save(&mut editor, encode_text);

    assert_eq!(report.notifications.len(), 1);
    assert!(matches!(report.notifications[0], Notification::EmptyScene));
    assert_eq!(report.notifications[0].kind(), ToastKind::Warning);
    assert!(matches!(report.action, SinkAction::Nothing));
    assert_eq!(editor.cache.scene.as_ref().unwrap().entities.len(), 0);
    assert_eq!(editor.state, SaveState::Idle);
}

#[test]
fn save_to_file_hands_the_text_to_the_host() {
    let file = "test.ron";
    let mut editor = editor(two_roots("my_name"), Some(EditorPrefabPath::File(String::from(file))));

    let report = serialize_scene(&mut editor, encode_text);

    assert!(report.notifications.is_empty());
    assert!(editor.cache.scene.is_none());
    match report.action {
        SinkAction::WriteFile { path, text } => {
            assert_eq!(path, "test.ron");
            assert!(text.contains("my_name"));
            assert!(text.contains("space_shared::PrefabMarker"));
        }
        SinkAction::Nothing => panic!("no write was scheduled"),
    }
}

#[test]
fn encoding_failure_writes_nothing_and_raises_one_error() {
    let mut to_memory = editor(two_roots("name"), Some(EditorPrefabPath::MemoryCache));
    to_memory.state = SaveState::Save;
    let report = SavePrefabPlugin.on_enter_save(&mut to_memory, encode_fails);
    assert!(to_memory.cache.scene.is_none());
    assert!(matches!(report.action, SinkAction::Nothing));
    assert_eq!(report.notifications.len(), 1);
    assert_eq!(report.notifications[0].kind(), ToastKind::Error);
    assert_eq!(report.notifications[0].text(), "failed to serialize prefab: unsupported value");
    assert_eq!(to_memory.state, SaveState::Idle);
    assert_eq!(linked(&to_memory.world), 0);

    let mut to_file =
        editor(two_roots("name"), Some(EditorPrefabPath::File(String::from("out.ron"))));
    let report = serialize_scene(&mut to_file, encode_fails);
    assert!(matches!(report.action, SinkAction::Nothing));
    assert_eq!(report.notifications.len(), 1);
    assert_eq!(to_file.state, SaveState::Idle);
}

#[test]
fn memory_save_counts_the_roots_and_leaves_no_record() {
    let mut world = two_roots("name");
    let grandchild = spawn_empty(&mut world);
    spawn_marked(&mut world, true, vec![grandchild]);
    let mut editor = editor(world, Some(EditorPrefabPath::MemoryCache));
    editor.state = SaveState::Save;

    let report = SavePrefabPlugin.update(&mut editor, encode_text).unwrap();

    assert!(report.notifications.is_empty());
    let scene = editor.cache.scene.as_ref().unwrap();
    assert_eq!(scene.entities.len(), 2);
    assert_eq!(scene.entities[0].entity, 1);
    assert_eq!(scene.entities[0].children.as_ref().unwrap().0, vec![0]);
    assert_eq!(scene.entities[1].entity, 2);
    assert!(scene.entities[1].children.is_none());
    assert_eq!(scene.entities[1].components.len(), 2);
    assert_eq!(scene.entities[1].components[1].value, "name");
    assert_eq!(linked(&editor.world), 0);
    assert_eq!(editor.state, SaveState::Idle);
}

#[test]
fn two_saves_in_a_row_leave_no_record() {
    let mut editor = editor(two_roots("name"), Some(EditorPrefabPath::MemoryCache));
    SavePrefabPlugin.request_save(&mut editor);
    assert_eq!(editor.state, SaveState::Save);
    SavePrefabPlugin.update(&mut editor, encode_text);
    assert_eq!(linked(&editor.world), 0);
    SavePrefabPlugin.request_save(&mut editor);
    SavePrefabPlugin.update(&mut editor, encode_fails);
    assert_eq!(linked(&editor.world), 0);
    assert_eq!(editor.state, SaveState::Idle);
    assert_eq!(editor.cache.scene.as_ref().unwrap().entities.len(), 2);
}

#[test]
fn idle_machine_does_nothing() {
    let mut editor = editor(two_roots("name"), Some(EditorPrefabPath::MemoryCache));
    assert_eq!(editor.state, SaveState::Idle);
    let report = SavePrefabPlugin.update(&mut editor, encode_text);
    assert!(report.is_none());
    assert!(editor.cache.scene.is_none());
    assert_eq!(linked(&editor.world), 0);
}

#[test]
fn auto_child_is_never_selected() {
    let mut world = World::new();
    let child_id = spawn_empty(&mut world);
    spawn_marked(&mut world, true, vec![child_id]);
    let root = spawn_marked(&mut world, false, Vec::new());
    spawn_empty(&mut world);

    assert_eq!(select_roots(&world), vec![root]);
    assert!(world.entities[1].prefab_marker && !world.entities[1].is_save_root());
    prepare_children(&mut world);
    assert_eq!(linked(&world), 0);
}

#[test]
fn record_keeps_the_order_of_the_children() {
    let mut world = World::new();
    let a = spawn_empty(&mut world);
    let b = spawn_empty(&mut world);
    let c = spawn_empty(&mut world);
    spawn_marked(&mut world, false, vec![c, a, b]);
    spawn_marked(&mut world, false, Vec::new());

    prepare_children(&mut world);

    assert_eq!(world.entities[3].children_prefab.as_ref().unwrap().0, vec![2, 0, 1]);
    assert_eq!(world.entities[3].children, vec![2, 0, 1]);
    assert!(world.entities[4].children_prefab.is_none());
    assert_eq!(ChildrenPrefab::from_children(&[]).0, Vec::<u64>::new());
    assert_eq!(ChildrenPrefab(vec![7, 5]).duplicate().0, vec![7, 5]);
}

#[test]
fn unlisted_component_types_are_dropped() {
    let mut world = two_roots("name");
    world.entities[2].components.insert(1, component(transform_type(), "(0, 0, 0)"));
    let mut registry = EditorRegistry::new();
    registry.register(name_type());
    let allow = registry.allow_list();
    assert!(allow.allows(name_type()));
    assert!(!allow.allows(transform_type()));
    assert!(!allow.allows(marker_type()));

    prepare_children(&mut world);
    let scene = extract_scene(&world, &allow);

    assert_eq!(scene.entities.len(), 2);
    assert!(scene.entities[0].components.is_empty());
    assert!(scene.entities[0].children.is_none());
    assert_eq!(scene.entities[1].components.len(), 1);
    assert_eq!(scene.entities[1].components[0].type_id, name_type());
    assert_eq!(scene.entities[1].components[0].value, "name");

    let kept = extract_components(&world.entities[2].components, &allow);
    assert_eq!(kept.len(), 1);
    assert_eq!(kept[0].duplicate().value, "name");
}

#[test]
fn empty_registry_gives_a_scene_without_components() {
    let world = two_roots("name");
    let registry = EditorRegistry::new();
    let scene = extract_scene(&world, &registry.allow_list());
    assert_eq!(scene.entities.len(), 2);
    assert!(scene.entities.iter().all(|e| e.components.is_empty() && e.children.is_none()));
}

#[test]
fn allow_list_follows_the_registry() {
    let mut registry = EditorRegistry::new();
    assert!(!registry.is_registered(name_type()));
    assert!(!registry.allow_list().allows(name_type()));
    registry.register(name_type());
    registry.register(name_type());
    assert!(!registry.is_registered(transform_type()));
    let before = registry.allow_list();
    registry.register(transform_type());
    assert!(!before.allows(transform_type()));
    assert!(registry.allow_list().allows(transform_type()));
    assert!(registry.is_registered(name_type()));
}

#[test]
fn plugin_registers_the_record_type() {
    let mut editor = Editor {
        world: World::new(),
        registry: EditorRegistry::new(),
        config: SaveConfig::default(),
        cache: PrefabMemoryCache { scene: None },
        state: SaveState::default(),
    };
    assert!(editor.config.path.is_none());
    assert_eq!(editor.state, SaveState::Idle);
    SavePrefabPlugin.build(&mut editor);
    assert!(editor.registry.children_prefab);
    assert!(editor.registry.allow_list().children_prefab);
    assert!(!editor.registry.is_registered(name_type()));
    assert_eq!(editor.state, SaveState::Idle);
}

#[test]
fn no_destination_does_nothing_after_extraction() {
    let mut editor = editor(two_roots("name"), None);
    editor.state = SaveState::Save;
    let report = SavePrefabPlugin.on_enter_save(&mut editor, encode_text);
    assert!(matches!(report.action, SinkAction::Nothing));
    assert!(report.notifications.is_empty());
    assert!(editor.cache.scene.is_none());
    assert_eq!(editor.state, SaveState::Idle);
}

#[test]
fn dispatch_replaces_the_cache_slot() {
    let config = SaveConfig { path: Some(EditorPrefabPath::MemoryCache) };
    let mut cache = PrefabMemoryCache { scene: None };
    let first = DetachedScene {
        entities: vec![SceneEntity { entity: 4, components: Vec::new(), children: None }],
    };
    let report: SaveReport = dispatch(&config, &mut cache, first, Ok(String::from("()")));
    assert!(matches!(report.action, SinkAction::Nothing));
    assert_eq!(cache.scene.as_ref().unwrap().entities[0].entity, 4);

    let second = DetachedScene { entities: Vec::new() };
    dispatch(&config, &mut cache, second, Ok(String::from("()")));
    assert!(cache.scene.as_ref().unwrap().entities.is_empty());

    let third = DetachedScene {
        entities: vec![SceneEntity { entity: 9, components: Vec::new(), children: None }],
    };
    let report = dispatch(&config, &mut cache, third, Err(String::from("gap")));
    assert!(cache.scene.as_ref().unwrap().entities.is_empty());
    assert_eq!(report.notifications.len(), 1);
    assert!(matches!(&report.notifications[0], Notification::SerializationFailed(c) if c == "gap"));
}

#[test]
fn finish_save_warns_then_reports_the_failure() {
    let mut editor = editor(World::new(), Some(EditorPrefabPath::File(String::from("a.ron"))));
    editor.state = SaveState::Save;
    let scene = DetachedScene { entities: Vec::new() };
    let report = finish_save(&mut editor, scene, Err(String::from("gap")));
    assert_eq!(report.notifications.len(), 2);
    assert_eq!(report.notifications[0].text(), "Saving empty scene");
    assert_eq!(report.notifications[1].text(), "failed to serialize prefab: gap");
    assert!(matches!(report.action, SinkAction::Nothing));
    assert_eq!(editor.state, SaveState::Idle);
}

#[test]
fn write_outcome_becomes_a_notification() {
    let done = write_finished(String::from("test.ron"), Ok(()));
    assert_eq!(done.text(), "Saved prefab to file test.ron");
    assert_eq!(done.kind(), ToastKind::Info);
    let failed = write_finished(String::from("test.ron"), Err(String::from("denied")));
    assert_eq!(failed.text(), "Error while writing scene to file: denied");
    assert_eq!(failed.kind(), ToastKind::Error);
}

#[test]
fn children_are_written_as_table_positions() {
    let mut mapper = EntityMapper::new();
    assert_eq!(mapper.get_or_reserve(40), 0);
    assert_eq!(mapper.get_or_reserve(41), 1);
    assert_eq!(mapper.get_or_reserve(40), 0);

    let mut prefab = ChildrenPrefab(vec![41, 77, 40, 77, 12]);
    prefab.map_entities(&mut mapper);

    assert_eq!(prefab.0, vec![1, 2, 0, 2, 3]);
    assert_eq!(mapper.table, vec![40, 41, 77, 12]);
}

#[test]
fn encoder_is_handed_the_extracted_scene() {
    let mut editor = editor(two_roots("name"), None);
    editor.state = SaveState::Save;
    let seen = std::cell::RefCell::new(Vec::new());
    let report = SavePrefabPlugin.on_enter_save(&mut editor, |scene: &DetachedScene| {
        for entity in scene.entities.iter() {
            let children = entity.children.as_ref().map(|link| link.0.clone());
            seen.borrow_mut().push((entity.entity, entity.components.len(), children));
        }
        Ok(String::new())
    });
    assert!(report.notifications.is_empty());
    assert_eq!(seen.into_inner(), vec![(1, 1, Some(vec![0])), (2, 2, None)]);
}
