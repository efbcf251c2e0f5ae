use sandbox_ipc::identity::{
    new_pipe_name, new_service_name, new_shared_memory_name, new_socket_name, prefixed_name, shared_memory_name,
};

const ID: u128 = 0x0123_4567_89ab_4def_8123_4567_89ab_cdef;

fn is_random(text: &str) -> bool {
    let digits: Vec<char> = text.chars().collect();
    digits.len() == 36
        && digits[8] == '-'
        && digits[13] == '-'
        && digits[14] == '4'
        && digits[18] == '-'
        && matches!(digits[19], '8' | '9' | 'a' | 'b')
        && digits[23] == '-'
        && digits.iter().filter(|c| **c != '-').all(|c| c.is_ascii_hexdigit() && !c.is_ascii_uppercase())
}

#[test]
fn shared_memory_name_is_cut_off() {
    let name = shared_memory_name(ID);
    assert_eq!(name, "/0123456789ab4def8123456789abc");
    assert_eq!(name.len(), 30);
    assert_eq!(shared_memory_name(1), "/00000000000000000000000000000");
}

#[test]
fn prefixed_name_holds_groups_of_digits() {
    assert_eq!(prefixed_name("x.", ID), "x.01234567-89ab-4def-8123-456789abcdef");
    assert_eq!(prefixed_name("", 0), "00000000-0000-0000-0000-000000000000");
    assert_eq!(prefixed_name("p", u128::MAX), "pffffffff-ffff-ffff-ffff-ffffffffffff");
}

#[test]
fn fresh_names_are_random() {
    let socket = new_socket_name();
    assert!(is_random(&socket));
    assert_ne!(socket, new_socket_name());

    let pipe = new_pipe_name();
    assert!(is_random(pipe.strip_prefix(r"\\.\pipe\").unwrap()));

    let service = new_service_name();
    assert!(is_random(service.strip_prefix("rust.sandbox-ipc-core.child.").unwrap()));

    let memory = new_shared_memory_name();
    assert_eq!(memory.len(), 30);
    assert!(memory.starts_with('/'));
    assert_eq!(memory.as_bytes()[13], b'4');
    assert_ne!(memory, new_shared_memory_name());
}
