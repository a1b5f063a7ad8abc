use window_state::codec::{decode, encode, from_members, member, to_members};
use window_state::store::{SaveAction, SaveRun, SaveStage, StoredText, STATE_FILE_NAME};
use window_state::window::{state_on_close, Startup, StartupPhase, WindowCall};
use window_state::{SaveError, SimpleWindowState};

fn rec(width: u32, height: u32, x: i32, y: i32) -> SimpleWindowState {
    SimpleWindowState { width, height, x, y }
}

fn default_rec() -> SimpleWindowState {
    rec(800, 1200, -1, -1)
}

fn members(list: &[(&str, i64)]) -> Vec<(String, i64)> {
    list.iter().map(|(k, v)| (k.to_string(), *v)).collect()
}

/// Drives a save to its end, answering each step with the given outcomes, and
/// returns every action together with the text written, if any.
fn run_save(state: SimpleWindowState, outcomes: &[Result<(), String>]) -> Vec<SaveAction> {
    let mut run = SaveRun::new(state);
    let mut actions = Vec::new();
    for o in outcomes {
        if run.is_finished() {
            break;
        }
        actions.push(run.step(o.clone()));
    }
    actions
}

fn run_startup(state: SimpleWindowState, outcomes: &[bool]) -> Vec<WindowCall> {
    let (mut st, first) = Startup::new(state);
    let mut calls = vec![first];
    for &ok in outcomes {
        if st.phase == StartupPhase::Done {
            break;
        }
        calls.push(st.step(ok));
    }
    calls
}

#[test]
fn default_record_values() {
    assert_eq!(SimpleWindowState::default(), default_rec());
    assert!(!SimpleWindowState::default().has_position());
}

#[test]
fn has_position_needs_both_coordinates() {
    assert!(rec(10, 10, 0, 0).has_position());
    assert!(!rec(10, 10, -1, 5).has_position());
    assert!(!rec(10, 10, 5, -1).has_position());
}

#[test]
fn state_file_name() {
    assert_eq!(STATE_FILE_NAME, "window_state.json");
}

#[test]
fn decode_pretty_file() {
    let text = "{\n  \"width\": 1024,\n  \"height\": 768,\n  \"x\": 100,\n  \"y\": 50\n}";
    assert_eq!(decode(text), Some(rec(1024, 768, 100, 50)));
}

#[test]
fn decode_any_member_order_and_spacing() {
    assert_eq!(decode("{\"y\":-3,\"x\":7,\"height\":2,\"width\":1}"), Some(rec(1, 2, 7, -3)));
}

#[test]
fn decode_ignores_other_integer_members() {
    assert_eq!(
        decode("{\"width\":5,\"height\":6,\"x\":1,\"y\":2,\"extra\":9}"),
        Some(rec(5, 6, 1, 2))
    );
}

#[test]
fn decode_rejects_non_json() {
    assert_eq!(decode("not json at all"), None);
    assert_eq!(decode(""), None);
    assert_eq!(decode("{\"width\": 800,"), None);
}

#[test]
fn decode_rejects_missing_field() {
    assert_eq!(decode("{\"width\":800,\"height\":1200,\"x\":3}"), None);
}

#[test]
fn decode_rejects_wrong_field_type() {
    assert_eq!(decode("{\"width\":\"800\",\"height\":1200,\"x\":3,\"y\":4}"), None);
    assert_eq!(decode("{\"width\":800.5,\"height\":1200,\"x\":3,\"y\":4}"), None);
}

#[test]
fn decode_rejects_out_of_range_fields() {
    assert_eq!(decode("{\"width\":-1,\"height\":1200,\"x\":3,\"y\":4}"), None);
    assert_eq!(decode("{\"width\":4294967296,\"height\":1,\"x\":3,\"y\":4}"), None);
    assert_eq!(decode("{\"width\":1,\"height\":1,\"x\":2147483648,\"y\":4}"), None);
    assert_eq!(decode("{\"width\":1,\"height\":1,\"x\":0,\"y\":-2147483649}"), None);
}

#[test]
fn decode_accepts_extreme_values() {
    assert_eq!(
        decode("{\"width\":4294967295,\"height\":0,\"x\":-2147483648,\"y\":2147483647}"),
        Some(rec(u32::MAX, 0, i32::MIN, i32::MAX))
    );
}

#[test]
fn encode_exact_text() {
    let text = encode(&default_rec()).unwrap();
    assert_eq!(text, "{\n  \"height\": 1200,\n  \"width\": 800,\n  \"x\": -1,\n  \"y\": -1\n}");
}

#[test]
fn encode_then_decode_round_trip() {
    for r in [
        rec(1, 1, 0, 0),
        rec(800, 1200, -1, -1),
        rec(1920, 1080, 100, 50),
        rec(u32::MAX, u32::MAX, i32::MIN, i32::MAX),
    ] {
        assert_eq!(decode(&encode(&r).unwrap()), Some(r));
    }
}

#[test]
fn member_lookup() {
    let m = members(&[("a", 1), ("b", 2), ("c", 3)]);
    assert_eq!(member(&m, "b"), Some(2));
    assert_eq!(member(&m, "d"), None);
    assert_eq!(member(&Vec::new(), "a"), None);
}

#[test]
fn member_lookup_takes_first() {
    let m = members(&[("a", 1), ("a", 2)]);
    assert_eq!(member(&m, "a"), Some(1));
}

#[test]
fn members_of_record() {
    let m = to_members(&rec(3, 4, -5, 6));
    assert_eq!(m, members(&[("width", 3), ("height", 4), ("x", -5), ("y", 6)]));
    assert_eq!(from_members(&m), Some(rec(3, 4, -5, 6)));
}

#[test]
fn from_members_needs_all_fields() {
    assert_eq!(from_members(&members(&[("width", 3), ("height", 4), ("x", 1)])), None);
    assert_eq!(from_members(&members(&[("width", 3), ("height", -4), ("x", 1), ("y", 1)])), None);
}

#[test]
fn load_without_config_dir_gives_default() {
    assert_eq!(SimpleWindowState::load(&StoredText::NoConfigDir), default_rec());
}

#[test]
fn load_unreadable_file_gives_default() {
    assert_eq!(SimpleWindowState::load(&StoredText::Unreadable), default_rec());
}

#[test]
fn load_malformed_file_gives_default() {
    for t in ["garbage", "", "[1,2,3]", "{\"width\":800,\"height\":600}", "{\"width\":null}"] {
        assert_eq!(SimpleWindowState::load(&StoredText::Read(t.to_string())), default_rec());
    }
}

#[test]
fn load_stored_record() {
    let t = "{\"width\":640,\"height\":480,\"x\":10,\"y\":20}".to_string();
    assert_eq!(SimpleWindowState::load(&StoredText::Read(t)), rec(640, 480, 10, 20));
}

#[test]
fn save_then_load_round_trip() {
    let r = rec(1280, 720, 33, 44);
    let actions = run_save(r, &[Ok(()), Ok(()), Ok(())]);
    let text = match &actions[1] {
        SaveAction::Write(t) => t.clone(),
        other => panic!("expected a write, got {:?}", other),
    };
    assert_eq!(actions[0], SaveAction::CreateDir);
    assert_eq!(actions[2], SaveAction::Done(Ok(())));
    assert_eq!(SimpleWindowState::load(&StoredText::Read(text)), r);
}

#[test]
fn save_twice_writes_only_second_record() {
    let first = run_save(rec(100, 200, 1, 2), &[Ok(()), Ok(())]);
    let second = run_save(rec(300, 400, 5, 6), &[Ok(()), Ok(())]);
    let (SaveAction::Write(a), SaveAction::Write(b)) = (&first[1], &second[1]) else {
        panic!("expected writes");
    };
    assert_ne!(a, b);
    assert_eq!(decode(b), Some(rec(300, 400, 5, 6)));
    assert_eq!(*b, encode(&rec(300, 400, 5, 6)).unwrap());
}

#[test]
fn save_config_dir_unavailable() {
    let actions = run_save(default_rec(), &[Err("no dir".to_string()), Ok(())]);
    assert_eq!(
        actions,
        vec![SaveAction::Done(Err(SaveError::ConfigDirUnavailable("no dir".to_string())))]
    );
}

#[test]
fn save_directory_create_failed() {
    let actions = run_save(default_rec(), &[Ok(()), Err("read-only".to_string()), Ok(())]);
    assert_eq!(
        actions,
        vec![
            SaveAction::CreateDir,
            SaveAction::Done(Err(SaveError::DirectoryCreateFailed("read-only".to_string()))),
        ]
    );
}

#[test]
fn save_file_write_failed() {
    let actions = run_save(default_rec(), &[Ok(()), Ok(()), Err("disk full".to_string())]);
    assert_eq!(actions.len(), 3);
    assert_eq!(
        actions[2],
        SaveAction::Done(Err(SaveError::FileWriteFailed("disk full".to_string())))
    );
}

#[test]
fn save_run_stages() {
    let mut run = SaveRun::new(default_rec());
    assert_eq!(run.stage, SaveStage::ResolvingDir);
    assert!(!run.is_finished());
    run.step(Ok(()));
    assert_eq!(run.stage, SaveStage::CreatingDir);
    run.step(Ok(()));
    assert_eq!(run.stage, SaveStage::Writing);
    run.step(Ok(()));
    assert!(run.is_finished());
    assert_eq!(run.state, default_rec());
}

#[test]
fn startup_unset_position_centers() {
    for outcomes in [[true, true], [false, false], [true, false], [false, true]] {
        assert_eq!(
            run_startup(rec(800, 1200, -1, -1), &outcomes),
            vec![WindowCall::SetSize(800, 1200), WindowCall::Center, WindowCall::Finish]
        );
    }
}

#[test]
fn startup_half_unset_position_centers() {
    assert_eq!(
        run_startup(rec(10, 20, 5, -1), &[true, true]),
        vec![WindowCall::SetSize(10, 20), WindowCall::Center, WindowCall::Finish]
    );
}

#[test]
fn startup_explicit_position() {
    assert_eq!(
        run_startup(rec(640, 480, 100, 50), &[true, true, true]),
        vec![WindowCall::SetSize(640, 480), WindowCall::SetPosition(100, 50), WindowCall::Finish]
    );
}

#[test]
fn startup_failed_position_centers_once() {
    for center_ok in [true, false] {
        let calls = run_startup(rec(640, 480, 100, 50), &[true, false, center_ok, true]);
        assert_eq!(
            calls,
            vec![
                WindowCall::SetSize(640, 480),
                WindowCall::SetPosition(100, 50),
                WindowCall::Center,
                WindowCall::Finish,
            ]
        );
        assert_eq!(calls.iter().filter(|c| **c == WindowCall::Center).count(), 1);
    }
}

#[test]
fn startup_failed_resize_still_places() {
    assert_eq!(
        run_startup(rec(0, 0, 0, 0), &[false, true]),
        vec![WindowCall::SetSize(0, 0), WindowCall::SetPosition(0, 0), WindowCall::Finish]
    );
}

#[test]
fn close_without_size_saves_nothing() {
    assert_eq!(state_on_close(None, Some((1, 2))), None);
    assert_eq!(state_on_close(None, None), None);
}

#[test]
fn close_captures_size_and_position() {
    assert_eq!(state_on_close(Some((1024, 768)), Some((-20, 30))), Some(rec(1024, 768, -20, 30)));
}

#[test]
fn close_without_position_stores_none() {
    assert_eq!(state_on_close(Some((1024, 768)), None), Some(rec(1024, 768, -1, -1)));
}
