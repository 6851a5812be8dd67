use notify::DebouncedEvent;
use shaderpark::{Action, DrawMode, Input, MaterialAutoUpdate, Message, ShaderStage};
use std::path::PathBuf;

fn controller() -> MaterialAutoUpdate<u32> {
    MaterialAutoUpdate::new(Ok(()), Ok(()), Ok(1), vec![1], vec![2], DrawMode::Triangles, None)
        .unwrap()
}

fn path(text: &str) -> PathBuf {
    PathBuf::from(text)
}

#[test]
fn a_write_seen_by_the_watcher_starts_a_reload() {
    let mut c = controller();
    c.observe(DebouncedEvent::Write(path("shaders/a.vert")));
    assert_eq!(c.pending(), 1);
    assert_eq!(c.step(Input::Poll), Ok(Action::Read { path: "shaders/a.vert".to_string() }));
}

#[test]
fn a_creation_seen_by_the_watcher_starts_a_reload() {
    let mut c = controller();
    c.observe(DebouncedEvent::Create(path("shaders/b.frag")));
    assert_eq!(c.step(Input::Poll), Ok(Action::Read { path: "shaders/b.frag".to_string() }));
    assert_eq!(
        c.step(Input::Source(Ok("s".to_string()))),
        Ok(Action::Compile {
            source: "s".to_string(),
            stage: ShaderStage::Fragment,
            label: "shaders/b.frag".to_string(),
        })
    );
}

#[test]
fn other_events_of_the_watcher_are_dropped() {
    let events = vec![
        DebouncedEvent::NoticeWrite(path("a.vert")),
        DebouncedEvent::NoticeRemove(path("a.vert")),
        DebouncedEvent::Chmod(path("a.vert")),
        DebouncedEvent::Remove(path("a.vert")),
        DebouncedEvent::Rename(path("old.vert"), path("a.vert")),
        DebouncedEvent::Rescan,
        DebouncedEvent::Error(notify::Error::WatchNotFound, Some(path("a.vert"))),
        DebouncedEvent::Error(notify::Error::PathNotFound, None),
    ];
    for event in events {
        let mut c = controller();
        c.observe(event);
        assert_eq!(c.pending(), 1);
        assert_eq!(c.step(Input::Poll), Ok(Action::Finish(None)));
        assert_eq!(c.pending(), 0);
        assert!(c.is_idle());
    }
}

#[test]
fn a_manual_update_and_a_write_seen_by_the_watcher_are_one_event() {
    let mut manual = controller();
    manual.manual_update("shaders/a.vert").unwrap();
    let mut seen = controller();
    seen.observe(DebouncedEvent::Write(path("shaders/a.vert")));
    for c in [&mut manual, &mut seen] {
        assert_eq!(c.step(Input::Poll), Ok(Action::Read { path: "shaders/a.vert".to_string() }));
        c.step(Input::Source(Ok("s".to_string()))).unwrap();
        c.step(Input::Binary(Ok(vec![9]))).unwrap();
        c.step(Input::Destroyed(Ok(()))).unwrap();
        assert_eq!(
            c.step(Input::Created(Ok(2))),
            Ok(Action::Finish(Some(Message::Reloaded {
                stage: ShaderStage::Vertex,
                path: "shaders/a.vert".to_string(),
            })))
        );
    }
    assert_eq!(manual.vertex(), seen.vertex());
    assert_eq!(manual.material(), seen.material());
}

#[test]
fn events_of_the_watcher_queue_behind_manual_updates() {
    let mut c = controller();
    c.manual_update("1.vert").unwrap();
    c.observe(DebouncedEvent::Write(path("2.frag")));
    c.manual_update("3.vert").unwrap();
    assert_eq!(c.pending(), 3);
    for expected in ["1.vert", "2.frag", "3.vert"] {
        assert_eq!(c.step(Input::Poll), Ok(Action::Read { path: expected.to_string() }));
        c.step(Input::Source(Err("gone".to_string()))).unwrap();
    }
}
