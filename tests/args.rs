use brb::args::{
    color_arg_parser, parse, time_arg_parser, total_duration_secs, CliArgs, Launch, TimeUnit,
    TimeValue,
};
use brb::config::{Color, Config, TomlColor};
use brb::text::{parse_decimal, split_on};

fn no_args() -> CliArgs {
    CliArgs {
        dir: false,
        text: None,
        chat: None,
        song_display: None,
        twitch: None,
        color: None,
        hide_timer: None,
        progress_bar: None,
        padding: None,
        time: None,
    }
}

#[test]
fn time_arguments_in_each_unit() {
    assert_eq!(time_arg_parser("15m"), Ok(TimeValue { value: 15, unit: TimeUnit::Minutes }));
    assert_eq!(time_arg_parser("2h"), Ok(TimeValue { value: 2, unit: TimeUnit::Hours }));
    assert_eq!(time_arg_parser("90s"), Ok(TimeValue { value: 90, unit: TimeUnit::Seconds }));
    assert_eq!(time_arg_parser("+7s"), Ok(TimeValue { value: 7, unit: TimeUnit::Seconds }));
    assert_eq!(
        time_arg_parser("18446744073709551615s"),
        Ok(TimeValue { value: u64::MAX, unit: TimeUnit::Seconds })
    );
}

#[test]
fn time_argument_without_suffix() {
    let e = "Time arguments must end with 'h', 'm', or 's' suffix".to_string();
    assert_eq!(time_arg_parser("15"), Err(e.clone()));
    assert_eq!(time_arg_parser("15d"), Err(e.clone()));
    assert_eq!(time_arg_parser(""), Err(e.clone()));
    assert_eq!(time_arg_parser("5é"), Err(e));
}

#[test]
fn time_argument_without_amount() {
    assert_eq!(time_arg_parser("m"), Err("Missing time amount for 'm' time unit".to_string()));
}

#[test]
fn time_argument_with_bad_amount() {
    assert_eq!(time_arg_parser("xm"), Err("Invalid time amount 'x' for 'm' time unit".to_string()));
    assert_eq!(time_arg_parser("-5s"), Err("Invalid time amount '-5' for 's' time unit".to_string()));
    assert_eq!(time_arg_parser("+h"), Err("Invalid time amount '+' for 'h' time unit".to_string()));
    assert_eq!(
        time_arg_parser("18446744073709551616s"),
        Err("Invalid time amount '18446744073709551616' for 's' time unit".to_string())
    );
}

#[test]
fn decimal_numbers() {
    assert_eq!(parse_decimal("255", 255), Some(255));
    assert_eq!(parse_decimal("256", 255), None);
    assert_eq!(parse_decimal("007", 255), Some(7));
    assert_eq!(parse_decimal("", 255), None);
    assert_eq!(parse_decimal("1 2", 255), None);
    assert_eq!(parse_decimal("99999999999999999999999", 255), None);
}

#[test]
fn split_keeps_empty_pieces() {
    assert_eq!(split_on("a,,b", ','), vec!["a", "", "b"]);
    assert_eq!(split_on("", ','), vec![""]);
    assert_eq!(split_on("x\n", '\n'), vec!["x", ""]);
}

#[test]
fn color_argument_by_name() {
    assert!(matches!(color_arg_parser("Blue"), Ok(TomlColor::Name(n)) if n == "blue"));
}

#[test]
fn color_argument_as_rgb() {
    assert!(matches!(color_arg_parser("255,0,10"), Ok(TomlColor::Rgb { r: 255, g: 0, b: 10 })));
    assert!(matches!(color_arg_parser(" 1 , 2,3 "), Ok(TomlColor::Rgb { r: 1, g: 2, b: 3 })));
}

#[test]
fn color_argument_errors() {
    assert!(matches!(color_arg_parser("purple"), Err(e) if e == "Invalid color name"));
    assert!(matches!(color_arg_parser(",1,2"), Err(e) if e == "Invalid RGB color format, must be 'R,G,B'"));
    assert!(matches!(color_arg_parser("1,2,"), Err(e) if e == "Invalid RGB color format, must be 'R,G,B'"));
    assert!(matches!(color_arg_parser("1, 300,2"),
        Err(e) if e == "Invalid value ' 300', must be a number between 0 and 255"));
    assert!(matches!(color_arg_parser("1,x,y"),
        Err(e) if e == "Invalid value 'x', must be a number between 0 and 255"));
    assert!(matches!(color_arg_parser("1,2"),
        Err(e) if e == "Too many RGB values, must be 3, 2 were provided"));
    assert!(matches!(color_arg_parser("1,2,3,4"),
        Err(e) if e == "Too many RGB values, must be 3, 4 were provided"));
}

#[test]
fn durations_add_up() {
    let ts = vec![
        TimeValue { value: 1, unit: TimeUnit::Hours },
        TimeValue { value: 2, unit: TimeUnit::Minutes },
        TimeValue { value: 3, unit: TimeUnit::Seconds },
    ];
    assert_eq!(total_duration_secs(&ts), Some(3723));
    assert_eq!(total_duration_secs(&vec![]), Some(0));
    let max = vec![TimeValue { value: u32::MAX as u64, unit: TimeUnit::Seconds }];
    assert_eq!(total_duration_secs(&max), Some(u32::MAX));
    let over = vec![
        TimeValue { value: u32::MAX as u64, unit: TimeUnit::Seconds },
        TimeValue { value: 1, unit: TimeUnit::Seconds },
    ];
    assert_eq!(total_duration_secs(&over), None);
    let huge = vec![TimeValue { value: u64::MAX, unit: TimeUnit::Hours }];
    assert_eq!(total_duration_secs(&huge), None);
}

#[test]
fn parse_asks_for_the_config_dir() {
    let mut a = no_args();
    a.dir = true;
    a.text = Some("ignored".to_string());
    assert!(matches!(parse(Config::default(), a, 0), Ok(Launch::ShowConfigDir)));
}

#[test]
fn parse_applies_overrides_and_starts_the_countdown() {
    let mut a = no_args();
    a.text = Some("Coffee".to_string());
    a.chat = Some(true);
    a.twitch = Some("chan".to_string());
    a.color = Some(TomlColor::Rgb { r: 1, g: 2, b: 3 });
    a.hide_timer = Some(false);
    a.padding = Some(4);
    a.time = Some(vec![
        TimeValue { value: 1, unit: TimeUnit::Minutes },
        TimeValue { value: 30, unit: TimeUnit::Seconds },
    ]);
    match parse(Config::default(), a, 1_000) {
        Ok(Launch::Run(app)) => {
            let c = app.get_config();
            assert_eq!(c.get_text(), "Coffee");
            assert!(c.is_chat());
            assert_eq!(c.get_twitch_channel(), Some("chan".to_string()));
            assert_eq!(c.get_color(), Color::Rgb(1, 2, 3));
            assert!(!c.is_hide_timer());
            assert!(c.is_progress_bar());
            assert_eq!(c.get_padding(), 4);
            assert_eq!(app.remaining_ms(), Some(90_000));
            assert!(!app.should_exit());
        }
        _ => panic!("expected the overlay to run"),
    }
}

#[test]
fn parse_without_time_has_no_countdown() {
    match parse(Config::default(), no_args(), 0) {
        Ok(Launch::Run(app)) => assert_eq!(app.remaining_ms(), None),
        _ => panic!("expected the overlay to run"),
    }
}

#[test]
fn parse_refuses_overlong_durations() {
    let mut a = no_args();
    a.time = Some(vec![TimeValue { value: 1_200_000, unit: TimeUnit::Hours }]);
    assert!(matches!(parse(Config::default(), a, 0),
        Err(e) if e == "The time arguments add up to more than 4294967295 seconds"));
}
