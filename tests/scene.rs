use renderer::geometry::{DrawKind, Mesh, Object};
use renderer::present::Extent;
use renderer::scene::{DrawCall, Scene};

fn indexed_object(tag: u32) -> Object<u32> {
    let mesh = Mesh::new(vec![[0.0f32; 4]; 8], (0..36).map(|i| i % 8).collect()).unwrap();
    Object::from_mesh(&mesh, tag)
}

fn plain_object(tag: u32, vertex_count: usize) -> Object<u32> {
    Object::from_mesh(&Mesh::new_pure(vec![[0.0f32; 4]; vertex_count]), tag)
}

#[test]
fn replacing_a_name_keeps_one_entry() {
    let mut scene: Scene<u32> = Scene::new();
    assert!(scene.insert("cube".to_string(), indexed_object(1)).is_none());
    assert_eq!(scene.len(), 1);
    let prev = scene.insert("cube".to_string(), plain_object(2, 36));
    assert_eq!(prev.map(|o| *o.buffers()), Some(1));
    assert_eq!(scene.len(), 1);
    let (name, obj) = scene.entry(0);
    assert_eq!(name, "cube");
    assert_eq!(*obj.buffers(), 2);
    assert_eq!(obj.draw(), DrawKind::NonIndexed { vertex_count: 36 });
}

#[test]
fn insert_get_remove() {
    let mut scene: Scene<u32> = Scene::new();
    assert_eq!(scene.len(), 0);
    scene.insert("a".to_string(), plain_object(1, 3));
    scene.insert("b".to_string(), plain_object(2, 6));
    scene.insert("c".to_string(), indexed_object(3));
    assert_eq!(scene.len(), 3);
    assert!(scene.contains(&"b".to_string()));
    assert_eq!(scene.get(&"c".to_string()).map(|o| *o.buffers()), Some(3));
    assert!(scene.get(&"d".to_string()).is_none());
    let removed = scene.remove(&"b".to_string());
    assert_eq!(removed.map(|o| *o.buffers()), Some(2));
    assert_eq!(scene.len(), 2);
    assert!(!scene.contains(&"b".to_string()));
    assert!(scene.remove(&"b".to_string()).is_none());
    assert_eq!(scene.get(&"a".to_string()).map(|o| *o.buffers()), Some(1));
    assert_eq!(scene.get(&"c".to_string()).map(|o| *o.buffers()), Some(3));
}

#[test]
fn draw_list_of_empty_scene_is_empty() {
    let scene: Scene<u32> = Scene::new();
    assert!(scene.draw_list(Extent::new(800, 600)).is_empty());
}

#[test]
fn draw_list_has_one_call_per_entry() {
    let mut scene: Scene<u32> = Scene::new();
    scene.insert("plain".to_string(), plain_object(1, 36));
    scene.insert("cube".to_string(), indexed_object(2));
    let viewport = Extent::new(1024, 768);
    let calls = scene.draw_list(viewport);
    assert_eq!(
        calls,
        vec![
            DrawCall { slot: 0, kind: DrawKind::NonIndexed { vertex_count: 36 }, viewport },
            DrawCall { slot: 1, kind: DrawKind::Indexed { index_count: 36 }, viewport },
        ]
    );
    assert_eq!(*scene.entry(calls[1].slot).1.buffers(), 2);
}
