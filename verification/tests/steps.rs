use shaderpark::{
    Action, ChangeEvent, ChangeKind, DrawMode, Error, Input, MaterialAutoUpdate, Message,
    ShaderStage,
};

fn text(s: &str) -> String {
    s.to_string()
}

fn controller(prefix: Option<&str>) -> MaterialAutoUpdate<u32> {
    MaterialAutoUpdate::new(
        Ok(()),
        Ok(()),
        Ok(1),
        vec![0xA0, 0xA1],
        vec![0xB0],
        DrawMode::Triangles,
        prefix.map(text),
    )
    .unwrap()
}

fn finished(message: Option<Message>) -> Result<Action<u32>, Error> {
    Ok(Action::Finish(message))
}

#[test]
fn new_starts_idle_with_the_given_binaries_and_material() {
    let c = controller(None);
    assert_eq!(c.material(), Some(1));
    assert_eq!(c.vertex(), &vec![0xA0, 0xA1]);
    assert_eq!(c.fragment(), &vec![0xB0]);
    assert_eq!(c.pending(), 0);
    assert!(c.is_idle());
}

#[test]
fn new_fails_with_the_first_step_that_failed() {
    let made = MaterialAutoUpdate::<u32>::new(
        Err(text("no compiler")),
        Err(text("no directory")),
        Err(text("no device")),
        vec![],
        vec![],
        DrawMode::Triangles,
        None,
    );
    assert_eq!(made.err(), Some(Error::CompilerInit { details: text("no compiler") }));
    let made = MaterialAutoUpdate::<u32>::new(
        Ok(()),
        Err(text("no directory")),
        Err(text("no device")),
        vec![],
        vec![],
        DrawMode::Triangles,
        None,
    );
    assert_eq!(made.err(), Some(Error::WatchSetup { details: text("no directory") }));
    let made = MaterialAutoUpdate::<u32>::new(
        Ok(()),
        Ok(()),
        Err(text("no device")),
        vec![],
        vec![],
        DrawMode::Triangles,
        None,
    );
    assert_eq!(made.err(), Some(Error::MaterialCreation { details: text("no device") }));
    let made = MaterialAutoUpdate::<u32>::new(
        Err(text("no compiler")),
        Ok(()),
        Ok(4),
        vec![],
        vec![],
        DrawMode::Triangles,
        None,
    );
    assert_eq!(made.err(), Some(Error::CompilerInit { details: text("no compiler") }));
}

#[test]
fn poll_with_nothing_pending_finishes_at_once() {
    let mut c = controller(None);
    assert_eq!(c.step(Input::Poll), finished(None));
    assert!(c.is_idle());
    assert_eq!(c.material(), Some(1));
}

#[test]
fn a_reload_asks_for_each_step_in_turn() {
    let mut c = controller(None);
    c.manual_update("shaders/a.vert").unwrap();
    assert_eq!(c.pending(), 1);
    assert_eq!(c.step(Input::Poll), Ok(Action::Read { path: text("shaders/a.vert") }));
    assert_eq!(c.pending(), 0);
    assert!(!c.is_idle());
    assert_eq!(
        c.step(Input::Source(Ok(text("void main() {}")))),
        Ok(Action::Compile {
            source: text("void main() {}"),
            stage: ShaderStage::Vertex,
            label: text("shaders/a.vert"),
        })
    );
    assert_eq!(c.vertex(), &vec![0xA0, 0xA1]);
    assert_eq!(c.step(Input::Binary(Ok(vec![7, 8, 9]))), Ok(Action::Destroy { material: 1 }));
    assert_eq!(c.vertex(), &vec![7, 8, 9]);
    assert_eq!(c.fragment(), &vec![0xB0]);
    assert_eq!(
        c.step(Input::Destroyed(Ok(()))),
        Ok(Action::Create {
            vertex: vec![7, 8, 9],
            fragment: vec![0xB0],
            draw_mode: DrawMode::Triangles,
        })
    );
    assert_eq!(c.material(), None);
    assert_eq!(
        c.step(Input::Created(Ok(2))),
        finished(Some(Message::Reloaded {
            stage: ShaderStage::Vertex,
            path: text("shaders/a.vert"),
        }))
    );
    assert_eq!(c.material(), Some(2));
    assert_eq!(c.vertex(), &vec![7, 8, 9]);
    assert_eq!(c.fragment(), &vec![0xB0]);
    assert!(c.is_idle());
}

#[test]
fn a_fragment_reload_leaves_the_vertex_binary() {
    let mut c = controller(None);
    c.manual_update("b.frag").unwrap();
    assert_eq!(c.step(Input::Poll), Ok(Action::Read { path: text("b.frag") }));
    assert_eq!(
        c.step(Input::Source(Ok(text("src")))),
        Ok(Action::Compile {
            source: text("src"),
            stage: ShaderStage::Fragment,
            label: text("b.frag"),
        })
    );
    assert_eq!(c.step(Input::Binary(Ok(vec![5]))), Ok(Action::Destroy { material: 1 }));
    assert_eq!(
        c.step(Input::Destroyed(Ok(()))),
        Ok(Action::Create {
            vertex: vec![0xA0, 0xA1],
            fragment: vec![5],
            draw_mode: DrawMode::Triangles,
        })
    );
    assert_eq!(
        c.step(Input::Created(Ok(9))),
        finished(Some(Message::Reloaded { stage: ShaderStage::Fragment, path: text("b.frag") }))
    );
    assert_eq!(c.vertex(), &vec![0xA0, 0xA1]);
    assert_eq!(c.fragment(), &vec![5]);
    assert_eq!(c.material(), Some(9));
}

#[test]
fn the_draw_mode_is_handed_to_every_creation() {
    let mut c = MaterialAutoUpdate::<u32>::new(
        Ok(()),
        Ok(()),
        Ok(1),
        vec![1],
        vec![2],
        DrawMode::Lines,
        None,
    )
    .unwrap();
    c.manual_update("a.vert").unwrap();
    c.step(Input::Poll).unwrap();
    c.step(Input::Source(Ok(text("s")))).unwrap();
    c.step(Input::Binary(Ok(vec![3]))).unwrap();
    assert_eq!(
        c.step(Input::Destroyed(Ok(()))),
        Ok(Action::Create { vertex: vec![3], fragment: vec![2], draw_mode: DrawMode::Lines })
    );
}

#[test]
fn a_read_error_ends_the_reload() {
    let mut c = controller(None);
    c.manual_update("a.vert").unwrap();
    c.step(Input::Poll).unwrap();
    assert_eq!(
        c.step(Input::Source(Err(text("not found")))),
        finished(Some(Message::Error(Error::FileRead {
            path: text("a.vert"),
            details: text("not found"),
        })))
    );
    assert!(c.is_idle());
    assert_eq!(c.material(), Some(1));
    assert_eq!(c.vertex(), &vec![0xA0, 0xA1]);
    assert_eq!(c.fragment(), &vec![0xB0]);
}

#[test]
fn a_compile_error_keeps_binaries_and_material() {
    let mut c = controller(None);
    c.manual_update("b.frag").unwrap();
    c.step(Input::Poll).unwrap();
    c.step(Input::Source(Ok(text("void main( {")))).unwrap();
    assert_eq!(
        c.step(Input::Binary(Err(text("syntax error")))),
        finished(Some(Message::Error(Error::Compile {
            stage: ShaderStage::Fragment,
            path: text("b.frag"),
            diagnostic: text("syntax error"),
        })))
    );
    assert!(c.is_idle());
    assert_eq!(c.material(), Some(1));
    assert_eq!(c.vertex(), &vec![0xA0, 0xA1]);
    assert_eq!(c.fragment(), &vec![0xB0]);
}

#[test]
fn a_failed_teardown_gives_the_material_up() {
    let mut c = controller(None);
    c.manual_update("a.vert").unwrap();
    c.step(Input::Poll).unwrap();
    c.step(Input::Source(Ok(text("s")))).unwrap();
    c.step(Input::Binary(Ok(vec![3]))).unwrap();
    assert_eq!(
        c.step(Input::Destroyed(Err(text("busy")))),
        finished(Some(Message::Error(Error::MaterialTeardown { details: text("busy") })))
    );
    assert_eq!(c.material(), None);
    assert_eq!(c.vertex(), &vec![3]);
    assert!(c.is_idle());
}

#[test]
fn a_failed_creation_leaves_no_material() {
    let mut c = controller(None);
    c.manual_update("a.vert").unwrap();
    c.step(Input::Poll).unwrap();
    c.step(Input::Source(Ok(text("s")))).unwrap();
    c.step(Input::Binary(Ok(vec![3]))).unwrap();
    c.step(Input::Destroyed(Ok(()))).unwrap();
    assert_eq!(
        c.step(Input::Created(Err(text("out of memory")))),
        finished(Some(Message::Error(Error::MaterialCreation {
            details: text("out of memory"),
        })))
    );
    assert_eq!(c.material(), None);
    assert!(c.is_idle());
}

#[test]
fn a_reload_without_a_live_material_creates_straight_away() {
    let mut c = controller(None);
    c.manual_update("a.vert").unwrap();
    c.step(Input::Poll).unwrap();
    c.step(Input::Source(Ok(text("s")))).unwrap();
    c.step(Input::Binary(Ok(vec![3]))).unwrap();
    c.step(Input::Destroyed(Err(text("busy")))).unwrap();
    assert_eq!(c.material(), None);

    c.manual_update("b.frag").unwrap();
    c.step(Input::Poll).unwrap();
    c.step(Input::Source(Ok(text("t")))).unwrap();
    assert_eq!(
        c.step(Input::Binary(Ok(vec![4]))),
        Ok(Action::Create { vertex: vec![3], fragment: vec![4], draw_mode: DrawMode::Triangles })
    );
    assert_eq!(
        c.step(Input::Created(Ok(5))),
        finished(Some(Message::Reloaded { stage: ShaderStage::Fragment, path: text("b.frag") }))
    );
    assert_eq!(c.material(), Some(5));
}

#[test]
fn an_input_out_of_turn_is_refused_and_changes_nothing() {
    let mut c = controller(None);
    assert_eq!(c.step(Input::Source(Ok(text("s")))), Err(Error::UnexpectedInput));
    assert_eq!(c.step(Input::Binary(Ok(vec![1]))), Err(Error::UnexpectedInput));
    assert_eq!(c.step(Input::Destroyed(Ok(()))), Err(Error::UnexpectedInput));
    assert_eq!(c.step(Input::Created(Ok(3))), Err(Error::UnexpectedInput));
    assert!(c.is_idle());
    assert_eq!(c.material(), Some(1));
    assert_eq!(c.vertex(), &vec![0xA0, 0xA1]);

    c.manual_update("a.vert").unwrap();
    c.manual_update("b.frag").unwrap();
    c.step(Input::Poll).unwrap();
    assert_eq!(c.step(Input::Poll), Err(Error::UnexpectedInput));
    assert_eq!(c.step(Input::Binary(Ok(vec![1]))), Err(Error::UnexpectedInput));
    assert_eq!(c.pending(), 1);
    assert_eq!(
        c.step(Input::Source(Ok(text("s")))),
        Ok(Action::Compile { source: text("s"), stage: ShaderStage::Vertex, label: text("a.vert") })
    );
}

#[test]
fn events_of_other_kinds_are_dropped() {
    let mut c = controller(None);
    for kind in [
        ChangeKind::NoticeWrite,
        ChangeKind::NoticeRemove,
        ChangeKind::Chmod,
        ChangeKind::Removed,
        ChangeKind::Renamed,
        ChangeKind::Rescan,
        ChangeKind::Error,
    ] {
        c.enqueue(ChangeEvent::new(kind, "a.vert"));
        assert_eq!(c.pending(), 1);
        assert_eq!(c.step(Input::Poll), finished(None));
        assert_eq!(c.pending(), 0);
        assert!(c.is_idle());
    }
}

#[test]
fn created_and_written_events_start_a_reload() {
    let mut c = controller(None);
    c.enqueue(ChangeEvent::new(ChangeKind::Created, "a.vert"));
    c.enqueue(ChangeEvent::new(ChangeKind::Written, "b.frag"));
    assert_eq!(c.step(Input::Poll), Ok(Action::Read { path: text("a.vert") }));
    c.step(Input::Source(Err(text("gone")))).unwrap();
    assert_eq!(c.step(Input::Poll), Ok(Action::Read { path: text("b.frag") }));
}

#[test]
fn written_builds_the_event_of_a_manual_update() {
    assert_eq!(
        ChangeEvent::written("a.vert"),
        ChangeEvent { kind: ChangeKind::Written, path: text("a.vert") }
    );
    assert_eq!(
        ChangeEvent::new(ChangeKind::Created, "a.vert"),
        ChangeEvent { kind: ChangeKind::Created, path: text("a.vert") }
    );
    assert!(ChangeEvent::written("a.vert").is_change());
    assert!(ChangeEvent::new(ChangeKind::Created, "x").is_change());
    assert!(!ChangeEvent::new(ChangeKind::NoticeWrite, "x").is_change());
    assert!(!ChangeEvent::new(ChangeKind::Removed, "x").is_change());
    assert!(!ChangeEvent::new(ChangeKind::Renamed, "x").is_change());
}

#[test]
fn events_are_taken_oldest_first() {
    let mut c = controller(None);
    c.manual_update("1.vert").unwrap();
    c.manual_update("2.txt").unwrap();
    c.manual_update("3.frag").unwrap();
    assert_eq!(c.pending(), 3);
    assert_eq!(c.step(Input::Poll), Ok(Action::Read { path: text("1.vert") }));
    c.step(Input::Source(Err(text("gone")))).unwrap();
    assert_eq!(c.pending(), 2);
    assert_eq!(c.step(Input::Poll), finished(None));
    assert_eq!(c.pending(), 1);
    assert_eq!(c.step(Input::Poll), Ok(Action::Read { path: text("3.frag") }));
    assert_eq!(c.pending(), 0);
}

#[test]
fn the_prefix_filter_drops_foreign_stems() {
    let mut c = controller(Some("unlit"));
    c.manual_update("shaders/fullscreen.vert").unwrap();
    c.manual_update("shaders/unlit.frag").unwrap();
    assert_eq!(c.step(Input::Poll), finished(None));
    assert!(c.is_idle());
    assert_eq!(c.step(Input::Poll), Ok(Action::Read { path: text("shaders/unlit.frag") }));
}
