use matrix_ctf_bot::config::{Config, MatrixConfig, MatrixSpace};
use matrix_ctf_bot::state::State;

fn sample_config(room_id: &str) -> Config {
    Config {
        matrix: MatrixConfig {
            initial_display_name: Some(String::from("ctf bot")),
            space: MatrixSpace { room_id: String::from(room_id) },
        },
    }
}

#[test]
fn accessors_return_what_was_bundled() {
    let state = State::with_config(
        String::from("https://example.org"),
        String::from("bot"),
        String::from("hunter2"),
        sample_config("!abc:example.org"),
    );
    state.init();
    assert_eq!(state.homeserver(), "https://example.org");
    assert_eq!(state.username(), "bot");
    assert_eq!(state.password(), "hunter2");
    assert_eq!(state.root_room_id(), "!abc:example.org");
}

#[test]
fn cloned_handle_shares_the_same_state() {
    let state = State::with_config(
        String::from("https://hs.example"),
        String::from("alice"),
        String::from("pw"),
        sample_config("!root:hs.example"),
    );
    let other = state.clone();
    assert_eq!(other.homeserver(), state.homeserver());
    assert_eq!(other.username(), state.username());
    assert_eq!(other.password(), state.password());
    assert_eq!(other.root_room_id(), state.root_room_id());
}

#[test]
fn display_name_may_be_absent() {
    let config = Config {
        matrix: MatrixConfig {
            initial_display_name: None,
            space: MatrixSpace { room_id: String::from("!r:x.org") },
        },
    };
    let state = State::with_config(
        String::from("https://x.org"),
        String::from("u"),
        String::from("p"),
        config,
    );
    assert_eq!(state.root_room_id(), "!r:x.org");
    assert!(state.inner.config.matrix.initial_display_name.is_none());
}
