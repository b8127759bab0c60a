use rustracer::canvas::{dump_directory, dump_file_name};
use rustracer::config::{Config, ConfigError, Flag, Flags};
use rustracer::decimal::{digit, parse_u32, push_decimal};

fn no_flags() -> Flags {
    Flags {
        width: None,
        height: None,
        samples_per_pixel: None,
        light_samples: None,
        bounces: None,
        debug: false,
        high_dpi: false,
        image_mode: false,
        single_threaded: false,
    }
}

fn text(s: &str) -> Option<String> {
    Some(String::from(s))
}

#[test]
fn digits() {
    assert_eq!(digit('0'), Some(0));
    assert_eq!(digit('7'), Some(7));
    assert_eq!(digit('9'), Some(9));
    assert_eq!(digit('a'), None);
    assert_eq!(digit('/'), None);
    assert_eq!(digit(':'), None);
    assert_eq!(digit('+'), None);
    assert_eq!(digit('\u{0663}'), None);
}

#[test]
fn numbers_are_read_as_the_standard_library_reads_them() {
    let texts = [
        "0",
        "7",
        "600",
        "+600",
        "000600",
        "4294967295",
        "4294967296",
        "42949672950",
        "99999999999999999999999",
        "00000000000000000000000001",
        "",
        "+",
        "-",
        "-1",
        "-0",
        "++1",
        "+-1",
        "1+",
        " 1",
        "1 ",
        "1_000",
        "1.0",
        "1e3",
        "0x10",
        "12a",
        "a12",
        "\u{0661}\u{0662}",
        "١٢٣",
        "１２",
    ];
    for text in texts.iter() {
        assert_eq!(parse_u32(text), text.parse::<u32>().ok(), "{:?}", text);
    }
    assert_eq!(parse_u32("600"), Some(600));
    assert_eq!(parse_u32("+4294967295"), Some(u32::MAX));
    assert_eq!(parse_u32("4294967296"), None);
}

#[test]
fn numbers_are_written_without_leading_zeros() {
    for (n, written) in [
        (0u64, "0"),
        (7, "7"),
        (10, "10"),
        (600, "600"),
        (1700000000, "1700000000"),
        (u64::MAX, "18446744073709551615"),
    ] {
        let mut out = String::from("t=");
        push_decimal(&mut out, n);
        assert_eq!(out, format!("t={}", written));
    }
}

#[test]
fn what_is_written_is_read_again() {
    for n in [0u32, 1, 9, 10, 99, 100, 12345, 4294967295] {
        let mut out = String::new();
        push_decimal(&mut out, n as u64);
        assert_eq!(parse_u32(&out), Some(n));
    }
}

#[test]
fn images_are_saved_under_their_time_in_the_dump_directory() {
    assert_eq!(dump_directory(), "dump");
    assert_eq!(dump_file_name(1700000000), "dump/1700000000.png");
    assert_eq!(dump_file_name(0), "dump/0.png");
    assert_eq!(dump_file_name(u64::MAX), "dump/18446744073709551615.png");
}

#[test]
fn a_command_line_without_flags_gives_the_defaults() {
    assert_eq!(Config::from_flags(&no_flags()), Ok(Config::new()));
}

#[test]
fn flags_set_the_configuration() {
    let flags = Flags {
        width: text("64"),
        height: text("48"),
        samples_per_pixel: text("16"),
        light_samples: text("8"),
        bounces: text("0"),
        debug: true,
        high_dpi: false,
        image_mode: true,
        single_threaded: true,
    };
    let config = Config::from_flags(&flags).unwrap();
    assert_eq!(config.screen_width(), 64);
    assert_eq!(config.screen_height(), 48);
    assert_eq!(config.samples_per_pixel(), 16);
    assert_eq!(config.light_samples(), 8);
    assert_eq!(config.bounces(), 0);
    assert_eq!(config.fov_degrees(), 90);
    assert!(config.debug());
    assert!(!config.high_dpi());
    assert!(config.image_mode());
    assert!(config.single_threaded());
    let built = Config::new()
        .with_size(64, 48)
        .and_then(|c| c.with_render_settings(16, 8, 0))
        .map(|c| c.with_switches(true, false, true, true));
    assert_eq!(built, Ok(config));
}

#[test]
fn what_is_no_number_is_refused_with_its_flag() {
    let bad = |flags: Flags| Config::from_flags(&flags);
    let flag = |flag: Flag| Err(ConfigError::NotANumber(flag));
    assert_eq!(bad(Flags { width: text("wide"), ..no_flags() }), flag(Flag::Width));
    assert_eq!(bad(Flags { height: text("-5"), ..no_flags() }), flag(Flag::Height));
    assert_eq!(
        bad(Flags { samples_per_pixel: text(""), ..no_flags() }),
        flag(Flag::SamplesPerPixel)
    );
    assert_eq!(bad(Flags { light_samples: text("4.0"), ..no_flags() }), flag(Flag::LightSamples));
    assert_eq!(bad(Flags { bounces: text("4294967296"), ..no_flags() }), flag(Flag::Bounces));
}

#[test]
fn the_first_bad_number_is_reported() {
    let all_bad = Flags {
        width: text("a"),
        height: text("b"),
        samples_per_pixel: text("c"),
        light_samples: text("d"),
        bounces: text("e"),
        ..no_flags()
    };
    assert_eq!(Config::from_flags(&all_bad), Err(ConfigError::NotANumber(Flag::LightSamples)));
    let some_bad = Flags { light_samples: text("1"), samples_per_pixel: text("0"), ..all_bad };
    assert_eq!(Config::from_flags(&some_bad), Err(ConfigError::NotANumber(Flag::Bounces)));
    let sizes_bad = Flags { bounces: text("1"), ..some_bad };
    assert_eq!(Config::from_flags(&sizes_bad), Err(ConfigError::NotANumber(Flag::Width)));
    let height_bad = Flags { width: text("0"), ..sizes_bad };
    assert_eq!(Config::from_flags(&height_bad), Err(ConfigError::NotANumber(Flag::Height)));
}

#[test]
fn numbers_that_cannot_be_rendered_with_are_refused() {
    let bad = |flags: Flags| Config::from_flags(&flags);
    assert_eq!(bad(Flags { width: text("0"), ..no_flags() }), Err(ConfigError::ZeroWidth));
    assert_eq!(bad(Flags { height: text("0"), ..no_flags() }), Err(ConfigError::ZeroHeight));
    assert_eq!(
        bad(Flags { samples_per_pixel: text("0"), ..no_flags() }),
        Err(ConfigError::ZeroSamples)
    );
    assert_eq!(
        bad(Flags { light_samples: text("0"), ..no_flags() }),
        Err(ConfigError::ZeroLightSamples)
    );
    assert_eq!(
        bad(Flags { width: text("4294967295"), height: text("4294967295"), ..no_flags() }),
        Err(ConfigError::FrameTooLarge)
    );
    assert_eq!(
        bad(Flags { width: text("0"), samples_per_pixel: text("0"), ..no_flags() }),
        Err(ConfigError::ZeroWidth)
    );
    assert!(bad(Flags { bounces: text("0"), ..no_flags() }).is_ok());
}
