//! The functions that decide without the host.

use gremvm::config::{
    validate_volume_reference, Config, Storage, StoredConfig, StoredStorage, VolumeStorage,
};
use gremvm::encoding::{bytes_of, first_bytes, strip_line_ending, utf8_bytes};
use gremvm::error::Error;
use gremvm::facts::Output;
use gremvm::host::{Host, Paths};
use gremvm::instance::{resolve, Identity};
use gremvm::names::{
    default_guest_user, has_control_character, is_digest, is_uuid, is_volume_name, valid_name,
    valid_user, validate_guest_password, NAME_RULE, PASSWORD_RULE, USER_RULE,
};
use gremvm::password::{password_of, random_bytes, SECRET_BYTES};
use gremvm::path::{
    components_of, file_name_of, is_absolute, is_inside, is_same_place, joined, parent_of,
};
use gremvm::process::text_from;
use gremvm::service::is_before_deadline;
use gremvm::tailscale::{parse_digest, parse_state, TailscaleState};
use gremvm::text::{
    decimal_of, escape, first_word_of, is_ascii_alphanumeric, is_ascii_digit, is_ascii_hexdigit,
    is_ascii_lowercase, is_control, is_ipv4_address, is_white_space, lines_of, number_of, split,
    starts_with, trim,
};
use std::path::{Path, PathBuf};

const UUID: &str = "9DAE1DD8-1A6C-4D59-BB60-018B31AB722B";

fn host() -> Host {
    Host {
        home: Some("/Users/me".to_owned()),
        search_path: None,
        architecture: "aarch64".to_owned(),
        user_id: 501,
    }
}

// ----------------------------------------------------------------------- text
#[test]
fn characters_are_classified_like_the_standard_library_does() {
    for c in (0..=u32::from(char::MAX)).filter_map(char::from_u32) {
        assert_eq!(is_white_space(c), c.is_whitespace(), "{c:?}");
        assert_eq!(is_control(c), c.is_control(), "{c:?}");
        assert_eq!(is_ascii_lowercase(c), c.is_ascii_lowercase());
        assert_eq!(is_ascii_digit(c), c.is_ascii_digit());
        assert_eq!(is_ascii_alphanumeric(c), c.is_ascii_alphanumeric());
        assert_eq!(is_ascii_hexdigit(c), c.is_ascii_hexdigit());
    }
}

#[test]
fn text_is_taken_apart_like_the_standard_library_does() {
    for text in [
        "",
        " ",
        "one",
        " one two\t\n",
        "\u{a0}x\u{2003}",
        "a\nb\r\nc\rd\n",
        "\n\n",
        "a:b::c:",
        "  /dev/disk3s5  100",
        "x\r\n",
        "x\r",
    ] {
        assert_eq!(trim(text), text.trim());
        assert_eq!(lines_of(text), text.lines().collect::<Vec<_>>());
        assert_eq!(split(text, ':'), text.split(':').collect::<Vec<_>>());
        assert_eq!(first_word_of(text).as_deref(), text.split_whitespace().next());
        assert_eq!(starts_with(text, "a"), text.starts_with('a'));
        assert_eq!(has_control_character(text), text.chars().any(char::is_control));
    }
    assert!(starts_with("/dev/ttys001", "/dev/tty"));
    assert!(!starts_with("/dev", "/dev/tty"));
    assert_eq!(escape("a\"b\\c"), "a\\\"b\\\\c");
}

#[test]
fn numbers_are_read_like_the_standard_library_does() {
    for text in [
        "",
        "0",
        "+7",
        "-7",
        "+",
        "-",
        "007",
        "18446744073709551615",
        "18446744073709551616",
        "99999999999999999999x",
        "x99999999999999999999",
        "12 ",
        "1_000",
        "\u{661}",
    ] {
        match (number_of(text), text.parse::<u64>()) {
            (Ok(value), Ok(expected)) => assert_eq!(value, expected),
            (Err(fault), Err(expected)) => assert_eq!(fault, expected.to_string(), "{text}"),
            _ => panic!("{text}"),
        }
    }
    for value in [0, 7, 10, 192, 5_000_000_000, u64::MAX] {
        assert_eq!(decimal_of(value), value.to_string());
    }
}

#[test]
fn addresses_are_recognised() {
    for text in ["100.64.0.7", "0.0.0.0", "255.255.255.255"] {
        assert!(is_ipv4_address(text), "{text}");
    }
    for text in [
        "256.0.0.1",
        "1.2.3",
        "1.2.3.4.5",
        "01.2.3.4",
        "1.2.3.",
        "",
        "1.2.3.4 ",
        "+1.2.3.4",
        "1.2.3.a",
        "1.2.3.0000",
    ] {
        assert!(!is_ipv4_address(text), "{text}");
    }
}

// ---------------------------------------------------------------------- bytes
#[test]
fn bytes_become_text_like_the_standard_library_does() {
    for bytes in [
        b"".to_vec(),
        b"plain".to_vec(),
        "gr\u{fc}n".as_bytes().to_vec(),
        b"\xff".to_vec(),
        b"ab\xe2\x82".to_vec(),
    ] {
        match (text_from(&bytes), String::from_utf8(bytes.clone())) {
            (Ok(text), Ok(expected)) => {
                assert_eq!(text, expected);
                assert_eq!(utf8_bytes(&text), bytes);
            }
            (Err(error), Err(expected)) => assert_eq!(error.render(), expected.to_string()),
            _ => panic!("{bytes:?}"),
        }
        assert_eq!(bytes_of(&bytes), bytes);
    }
    assert_eq!(first_bytes(&b"abc".to_vec(), 2), b"ab");
}

#[test]
fn one_line_ending_is_stripped() {
    for (bytes, expected) in [
        ("secret\n", "secret"),
        ("secret\r\n", "secret"),
        ("secret\r", "secret\r"),
        ("secret\n\n", "secret\n"),
        ("\n", ""),
        ("", ""),
    ] {
        assert_eq!(strip_line_ending(&bytes.as_bytes().to_vec()), expected.as_bytes());
    }
}

#[test]
fn failures_quote_what_programs_wrote() {
    let output = Output { code: Some(2), stdout: Vec::new(), stderr: b" bad \xff\n".to_vec() };
    match gremvm::process::check_output(&output, "try it") {
        Err(gremvm::session::Halt::Failed(error)) => {
            assert_eq!(error.render(), "failed to try it: bad \u{fffd}")
        }
        _ => panic!("the program succeeded"),
    }
    assert!(!output.success());
    assert!(!Output { code: None, stdout: Vec::new(), stderr: Vec::new() }.success());
    assert!(Output { code: Some(0), stdout: Vec::new(), stderr: Vec::new() }.success());
}

// ---------------------------------------------------------------------- paths
#[test]
fn paths_are_joined_and_compared_like_the_standard_library_does() {
    let samples = [
        "/",
        "/a",
        "/a/",
        "/a//b",
        "/a/./b",
        "/a/b",
        "a/b",
        "./a/b",
        "a/./b",
        "",
        ".",
        "..",
        "/a/..",
        "/Volumes/My Work",
        "/Volumes/My Work/gremvm",
    ];
    for left in samples {
        assert_eq!(is_absolute(left), Path::new(left).is_absolute());
        assert_eq!(
            file_name_of(left).as_deref(),
            Path::new(left).file_name().map(|name| name.to_str().unwrap())
        );
        let expected: Vec<String> = Path::new(left)
            .components()
            .map(|part| part.as_os_str().to_str().unwrap().to_owned())
            .collect();
        assert_eq!(components_of(left), expected, "{left}");
        for right in samples {
            let together = Path::new(left).join(right);
            assert_eq!(joined(left, right), together.to_str().unwrap());
            assert_eq!(is_same_place(left, right), Path::new(left) == Path::new(right));
            assert_eq!(is_inside(left, right), Path::new(left).starts_with(right));
        }
    }
}

#[test]
fn canonical_paths_have_parents() {
    for path in ["/", "/a", "/a/b", "/nix/store/bundle/bin/gremvm"] {
        assert_eq!(
            parent_of(path).map(PathBuf::from),
            Path::new(path).parent().map(Path::to_path_buf)
        );
    }
}

// ---------------------------------------------------------------------- names
#[test]
fn names_follow_their_rules() {
    for name in ["gremvm", "Foo-1.2_x", "7", &"a".repeat(64)] {
        assert_eq!(valid_name(name).unwrap(), name);
    }
    for name in ["", "-a", ".", "..", "a/b", "a b", "\u{e4}", &"a".repeat(65)] {
        assert_eq!(valid_name(name).unwrap_err(), NAME_RULE);
    }
    for user in ["admin", "build_user", "a-1", &"a".repeat(32)] {
        assert_eq!(valid_user(user).unwrap(), user);
    }
    for user in ["", "Admin", "1a", "_a", "root", "daemon", "guest", "nobody", &"a".repeat(33)] {
        assert_eq!(valid_user(user).unwrap_err(), USER_RULE);
    }
    assert_eq!(default_guest_user(), "admin");
}

#[test]
fn guest_passwords_are_counted_in_characters() {
    assert_eq!(validate_guest_password("1234567"), Err(PASSWORD_RULE.to_owned()));
    assert_eq!(validate_guest_password("12345678"), Ok(()));
    assert_eq!(validate_guest_password(&"\u{fc}".repeat(128)), Ok(()));
    assert_eq!(validate_guest_password(&"x".repeat(129)), Err(PASSWORD_RULE.to_owned()));
}

#[test]
fn generated_passwords_are_hexadecimal() {
    let bytes: Vec<u8> = vec![0, 9, 10, 15, 16, 171, 255];
    assert_eq!(password_of(&bytes), "00090a0f10abff");
    let drawn = |count: usize| random_bytes(count).unwrap();
    assert_eq!(drawn(0).len(), 0);
    assert_eq!(drawn(7).len(), 7);
    let one = password_of(&drawn(SECRET_BYTES));
    let other = password_of(&drawn(SECRET_BYTES));
    assert_eq!(one.len(), 48);
    assert!(one.chars().all(|c| c.is_ascii_hexdigit() && !c.is_ascii_uppercase()));
    assert_ne!(one, other);
    assert_ne!(one, "0".repeat(48));
    assert_eq!(validate_guest_password(&one), Ok(()));
}

#[test]
fn shapes_are_recognised() {
    assert!(is_uuid(UUID));
    assert!(!is_uuid(&UUID[1..]));
    assert!(!is_uuid(&UUID.replace('-', "0")));
    assert!(!is_uuid(&UUID.replace('9', "G")));
    assert!(is_digest(&"0aF".repeat(22)[..64]));
    assert!(!is_digest(&"0".repeat(63)));
    assert!(!is_digest(&"g".repeat(64)));
    for name in ["My Work", "GremVM", "...", "a.b"] {
        assert!(is_volume_name(name));
    }
    for name in ["", ".", "..", "a/b", "a\nb"] {
        assert!(!is_volume_name(name));
    }
}

// ------------------------------------------------------------------ instances
#[test]
fn instances_are_kept_apart() {
    let gremvm = resolve("/Users/me", "gremvm".to_owned());
    assert_eq!(gremvm.identity, Identity::Gremvm);
    assert_eq!(gremvm.root, "/Users/me/Library/Application Support/GremVM");
    assert_eq!(gremvm.service_label, "io.gremvm.tart");
    assert_eq!(gremvm.keychain_helper_label, "io.gremvm.keychain");
    assert_eq!(gremvm.password_service, "io.gremvm.tart.gui-password");
    let foovm = resolve("/Users/me/", "foovm".to_owned());
    assert_eq!(foovm.identity, Identity::Named("foovm".to_owned()));
    assert_eq!(foovm.root, "/Users/me/Library/Application Support/GremVM/instances/foovm");
    assert_eq!(foovm.service_label, "io.gremvm.tart.foovm");
    assert_eq!(foovm.keychain_helper_label, "io.gremvm.keychain.foovm");
    assert_eq!(foovm.password_service, "io.gremvm.tart.foovm.gui-password");
}

#[test]
fn paths_belong_to_one_vm() {
    let paths = Paths::discover("foovm".to_owned(), &host()).unwrap();
    let root = "/Users/me/Library/Application Support/GremVM/instances/foovm";
    assert_eq!(paths.root, root);
    assert_eq!(paths.config_file, format!("{root}/config/config.json"));
    assert_eq!(paths.ssh_key, format!("{root}/config/id_ed25519"));
    assert_eq!(paths.public_key(), format!("{root}/config/id_ed25519.pub"));
    assert_eq!(paths.run_marker, format!("{root}/state/run"));
    assert_eq!(paths.service_plist, format!("{root}/state/service.plist"));
    assert_eq!(paths.bin("tart"), format!("{root}/runtime/bin/tart"));
    assert_eq!(paths.guest_tailscale, format!("{root}/runtime/libexec/gremvm/tailscaled"));
    assert_eq!(paths.command_link, "/Users/me/.local/bin/foovm");
    assert_eq!(
        paths.autoload_agent(),
        "/Users/me/Library/LaunchAgents/io.gremvm.tart.foovm.plist"
    );
    assert_eq!(paths.service_target(&host()), "user/501/io.gremvm.tart.foovm");
    assert_eq!(paths.keychain_helper_target(&host()), "user/501/io.gremvm.keychain.foovm");
    assert_eq!(paths.install_hint(), "nix run github:jul-sh/gremvm -- install foovm");
    assert_eq!(
        Paths::discover("a/b".to_owned(), &host()).unwrap_err().render(),
        NAME_RULE
    );
}

// ------------------------------------------------------------------- settings
fn stored() -> StoredConfig {
    StoredConfig {
        vm_name: "gremvm".to_owned(),
        guest_user: None,
        cpu_count: 6,
        memory_gb: 24,
        disk_gb: 192,
        storage: StoredStorage::Default,
    }
}

#[test]
fn settings_are_checked_when_they_are_loaded() {
    let load = |change: &dyn Fn(&mut StoredConfig)| {
        let mut stored = stored();
        change(&mut stored);
        match Config::from_stored(&stored, &Identity::Gremvm) {
            Ok(config) => config.guest_user,
            Err(error) => error.render(),
        }
    };
    assert_eq!(load(&|_| {}), "admin");
    assert_eq!(load(&|stored| stored.vm_name = "a b".to_owned()), NAME_RULE);
    assert_eq!(load(&|stored| stored.guest_user = Some("root".to_owned())), USER_RULE);
    assert_eq!(load(&|stored| stored.guest_user = Some("builder".to_owned())), "builder");
    assert_eq!(load(&|stored| stored.cpu_count = 0), "invalid CPU count");
    assert_eq!(load(&|stored| stored.cpu_count = 65), "invalid CPU count");
    assert_eq!(load(&|stored| stored.cpu_count = 64), "admin");
    assert_eq!(load(&|stored| stored.memory_gb = 3), "invalid memory size");
    assert_eq!(load(&|stored| stored.memory_gb = 257), "invalid memory size");
    assert_eq!(load(&|stored| stored.disk_gb = 49), "invalid disk size");
    assert_eq!(load(&|stored| stored.disk_gb = u64::MAX), "admin");
}

#[test]
fn settings_survive_being_written_back() {
    let mut found = stored();
    found.storage =
        StoredStorage::LegacyVolume { name: "GremVM".to_owned(), uuid: UUID.to_owned() };
    let config = Config::from_stored(&found, &Identity::Gremvm).unwrap();
    let mut written = stored();
    written.guest_user = Some(config.guest_user.clone());
    written.storage = match &config.storage {
        Storage::EncryptedVolume(volume) => StoredStorage::EncryptedVolume(volume.copy()),
        _ => panic!("the volume is not encrypted"),
    };
    let again = Config::from_stored(&written, &Identity::Gremvm).unwrap();
    assert!(again.is_same(&config));
    match again.storage {
        Storage::EncryptedVolume(volume) => assert_eq!(volume.path, "/Volumes/GremVM"),
        _ => panic!("the volume is not encrypted"),
    }
}

#[test]
fn settings_are_the_same_when_their_paths_lead_to_the_same_place() {
    let config = |path: &str| Config {
        vm_name: "gremvm".to_owned(),
        guest_user: "admin".to_owned(),
        cpu_count: 6,
        memory_gb: 24,
        disk_gb: 192,
        storage: Storage::Directory { path: path.to_owned() },
    };
    assert!(config("/Users/me/vms").is_same(&config("/Users/me//vms/")));
    assert!(!config("/Users/me/vms").is_same(&config("/Users/me/other")));
    let mut other = config("/Users/me/vms");
    other.disk_gb = 193;
    assert!(!config("/Users/me/vms").is_same(&other));
    other.disk_gb = 192;
    other.storage = Storage::Default;
    assert!(!config("/Users/me/vms").is_same(&other));
    assert!(other.is_same(&other.copy()));
}

#[test]
fn volume_references_are_checked() {
    let check = |path: &str, mount_point: &str, name: &str, uuid: &str| {
        let volume = VolumeStorage {
            path: path.to_owned(),
            mount_point: mount_point.to_owned(),
            name: name.to_owned(),
            uuid: uuid.to_owned(),
        };
        match validate_volume_reference(&volume) {
            Ok(()) => String::new(),
            Err(error) => error.render(),
        }
    };
    assert_eq!(check("/Volumes/W/vm", "/Volumes/W", "W", UUID), "");
    assert_eq!(check("/Volumes/W", "/Volumes/W/", "W", UUID), "");
    assert_eq!(check("vm", "/Volumes/W", "W", UUID), "storage directory must be absolute");
    assert_eq!(check("/vm", "//", "W", UUID), "invalid VM storage mount point");
    assert_eq!(check("/vm", "W", "W", UUID), "invalid VM storage mount point");
    assert_eq!(check("/Volumes/W", "/Volumes/W", "..", UUID), "invalid VM storage volume name");
    assert_eq!(check("/Volumes/W", "/Volumes/W", "W", "1"), "invalid VM storage volume UUID");
    assert_eq!(
        check("/Volumes/Wide/vm", "/Volumes/W", "W", UUID),
        "VM storage directory is outside its recorded volume: /Volumes/Wide/vm"
    );
}

// ------------------------------------------------------------------ Tailscale
#[test]
fn tailscale_reports_are_read() {
    let read = |report: &str| match parse_state(report) {
        Ok(TailscaleState::NotInstalled) => "not installed".to_owned(),
        Ok(TailscaleState::Disconnected) => "disconnected".to_owned(),
        Ok(TailscaleState::Connected { ip }) => ip,
        Err(error) => error.render(),
    };
    assert_eq!(read("not-installed"), "not installed");
    assert_eq!(read("disconnected"), "disconnected");
    assert_eq!(read("connected\n100.64.0.7"), "100.64.0.7");
    assert_eq!(read(""), "Tailscale returned an unknown state");
    assert_eq!(read("lost"), "Tailscale returned an unknown state");
    assert_eq!(read("connected"), "Tailscale did not return an IPv4 address");
    assert_eq!(
        read("connected\nfd7a::1"),
        "Tailscale returned an invalid IPv4 address: invalid IPv4 address syntax"
    );
    assert_eq!(read("connected\n100.64.0.7\nmore"), "Tailscale returned malformed state");
    assert_eq!(read("disconnected\nmore"), "Tailscale returned malformed state");
}

#[test]
fn digests_are_read() {
    let digest = "0123456789abcdef".repeat(4);
    assert_eq!(parse_digest(&format!("{digest}  file")).unwrap(), digest);
    assert_eq!(parse_digest("  ").unwrap_err().render(), "shasum returned no digest");
    assert_eq!(parse_digest("abc").unwrap_err().render(), "shasum returned an invalid digest");
}

// --------------------------------------------------------------------- errors
#[test]
fn errors_are_printed_from_the_outside_in() {
    let error = Error::new("cause").context("middle").context("outside");
    assert_eq!(error.render(), "outside: middle: cause");
    assert_eq!(error.outermost().render(), "outside");
}

#[test]
fn deadlines_are_exact() {
    assert!(is_before_deadline(1000, 5000, 5999));
    assert!(!is_before_deadline(1000, 5000, 6000));
    assert!(is_before_deadline(u64::MAX, 5000, u64::MAX));
    assert!(is_before_deadline(1000, 1, 0));
}
