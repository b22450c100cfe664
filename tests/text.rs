use hyper_reflector::cli::{is_lua_flag_arg, lua_arg_positions, resolve_lua_args};
use hyper_reflector::resources::require_subdir;
use hyper_reflector::text::{decimal_string, emulator_command_line, find_bytes, is_liveness_signal};
use hyper_reflector::types::{StartArgs, DEFAULT_LISTEN_PORT};

fn strings(v: &[&str]) -> Vec<String> {
    v.iter().map(|s| s.to_string()).collect()
}

fn args() -> StartArgs {
    StartArgs {
        my_uid: "a".to_string(),
        peer_uid: "b".to_string(),
        server_host: "127.0.0.1".to_string(),
        server_port: 1,
        match_id: None,
        emulator_path: "emu".to_string(),
        player: 1,
        delay: 3,
        user_name: "Player One".to_string(),
        game_name: None,
        emulator_game_port: Some(7010),
        emulator_listen_port: None,
        emulator_args: Vec::new(),
    }
}

#[test]
fn decimal_values() {
    assert_eq!(decimal_string(0), "0");
    assert_eq!(decimal_string(7), "7");
    assert_eq!(decimal_string(10), "10");
    assert_eq!(decimal_string(65535), "65535");
    assert_eq!(decimal_string(u64::MAX), u64::MAX.to_string());
}

#[test]
fn byte_search() {
    assert!(find_bytes(&b"abcdef".to_vec(), &b"cde".to_vec()));
    assert!(find_bytes(&b"abc".to_vec(), &Vec::new()));
    assert!(!find_bytes(&b"abc".to_vec(), &b"abcd".to_vec()));
    assert!(!find_bytes(&b"abcabd".to_vec(), &b"abe".to_vec()));
    assert!(find_bytes(&b"abcabd".to_vec(), &b"abd".to_vec()));
}

#[test]
fn liveness_signals() {
    assert!(is_liveness_signal(&b"ping".to_vec()));
    assert!(!is_liveness_signal(&b"ping!".to_vec()));
    assert!(is_liveness_signal(&br#"{"address":"1.2.3.4","port":5}"#.to_vec()));
    assert!(!is_liveness_signal(&b"port".to_vec()));
    assert!(!is_liveness_signal(&vec![0xc3u8, 0x28, b'"', b'p', b'o', b'r', b't', b'"']));
    assert!(is_liveness_signal(&"é\"port\"".as_bytes().to_vec()));
}

#[test]
fn default_command_line() {
    let a = args();
    assert_eq!(
        emulator_command_line(&a, 51000),
        strings(&[
            "--local-port", "7010", "--remote-ip", "127.0.0.1", "--remote-port", "51000",
            "--player", "1", "--delay", "3", "--name", "Player One",
        ])
    );
    assert_eq!(a.requested_listen_port(), DEFAULT_LISTEN_PORT);
    assert_eq!(a.game_port(), 7010);
}

#[test]
fn explicit_command_line() {
    let mut a = args();
    a.emulator_args = strings(&["-x", "--lua", "s.lua"]);
    assert_eq!(emulator_command_line(&a, 51000), strings(&["-x", "--lua", "s.lua"]));
}

#[test]
fn lua_flags() {
    assert!(is_lua_flag_arg(&"--lua".to_string()));
    assert!(is_lua_flag_arg(&"--LuA".to_string()));
    assert!(!is_lua_flag_arg(&"--luax".to_string()));
    assert!(!is_lua_flag_arg(&"-lua".to_string()));
}

#[test]
fn lua_positions_skip_paths() {
    let a = strings(&["--lua", "--lua", "x", "--LUA", "y.lua", "--lua"]);
    assert_eq!(lua_arg_positions(&a), vec![1, 4]);
    assert_eq!(lua_arg_positions(&strings(&["a", "b"])), Vec::<usize>::new());
}

#[test]
fn lua_paths_are_replaced_with_forward_slashes() {
    let mut a = strings(&["-g", "--lua", "s.lua", "--name", "n"]);
    resolve_lua_args(&mut a, &strings(&["C:\\emu\\lua\\s.lua"]));
    assert_eq!(a, strings(&["-g", "--lua", "C:/emu/lua/s.lua", "--name", "n"]));
}

#[test]
fn subdir_present_or_missing() {
    assert_eq!(
        require_subdir("/files", "emu", "/files/emu".to_string(), true),
        Ok("/files/emu".to_string())
    );
    assert_eq!(
        require_subdir("/files", "lua", "/files/lua".to_string(), false),
        Err("Required resource subfolder 'lua' missing under '/files'".to_string())
    );
}
