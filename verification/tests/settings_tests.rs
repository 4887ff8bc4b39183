use roth_pomodoro::Settings;
use roth_pomodoro::SettingsDraft;

fn default_settings() -> Settings {
    Settings {
        work_seconds: 1500,
        short_break_seconds: 300,
        long_break_seconds: 900,
        long_break_every: 4,
    }
}

#[test]
fn default_values() {
    let s: Settings = Default::default();
    assert_eq!(s, default_settings());
}

#[test]
fn draft_from_default_settings() {
    let d = SettingsDraft::from_settings(default_settings());
    assert_eq!(d.work_minutes, "25");
    assert_eq!(d.short_break_minutes, "5");
    assert_eq!(d.long_break_minutes, "15");
    assert_eq!(d.long_break_every, "4");
}

#[test]
fn draft_floors_partial_minutes() {
    let s = Settings {
        work_seconds: 90,
        short_break_seconds: 59,
        long_break_seconds: 61,
        long_break_every: 10,
    };
    let d = SettingsDraft::from_settings(s);
    assert_eq!(d.work_minutes, "1");
    assert_eq!(d.short_break_minutes, "0");
    assert_eq!(d.long_break_minutes, "1");
    assert_eq!(d.long_break_every, "10");
}

#[test]
fn round_trip_default() {
    let s = default_settings();
    let parsed = SettingsDraft::from_settings(s).parse();
    assert_eq!(parsed, Some(s));
}

#[test]
fn round_trip_custom() {
    let s = Settings {
        work_seconds: 1200,
        short_break_seconds: 60,
        long_break_seconds: 3600,
        long_break_every: 7,
    };
    let parsed = SettingsDraft::from_settings(s).parse();
    assert_eq!(parsed, Some(s));
}

#[test]
fn parse_scales_minutes_to_seconds() {
    let d = SettingsDraft {
        work_minutes: "30".to_string(),
        short_break_minutes: "10".to_string(),
        long_break_minutes: "20".to_string(),
        long_break_every: "2".to_string(),
    };
    let s = d.parse().unwrap();
    assert_eq!(s.work_seconds, 1800);
    assert_eq!(s.short_break_seconds, 600);
    assert_eq!(s.long_break_seconds, 1200);
    assert_eq!(s.long_break_every, 2);
}

#[test]
fn parse_rejects_empty_field() {
    let d = SettingsDraft {
        work_minutes: "".to_string(),
        short_break_minutes: "5".to_string(),
        long_break_minutes: "15".to_string(),
        long_break_every: "4".to_string(),
    };
    assert_eq!(d.parse(), None);
}

#[test]
fn parse_rejects_non_numeric_field() {
    let d = SettingsDraft {
        work_minutes: "25".to_string(),
        short_break_minutes: "five".to_string(),
        long_break_minutes: "15".to_string(),
        long_break_every: "4".to_string(),
    };
    assert_eq!(d.parse(), None);
}

#[test]
fn parse_rejects_zero_in_each_field() {
    let texts = ["25", "5", "15", "4"];
    for zeroed in 0..4 {
        let pick = |i: usize| {
            if i == zeroed {
                "0".to_string()
            } else {
                texts[i].to_string()
            }
        };
        let d = SettingsDraft {
            work_minutes: pick(0),
            short_break_minutes: pick(1),
            long_break_minutes: pick(2),
            long_break_every: pick(3),
        };
        assert_eq!(d.parse(), None);
    }
}

#[test]
fn parse_rejects_negative_field() {
    let d = SettingsDraft {
        work_minutes: "25".to_string(),
        short_break_minutes: "5".to_string(),
        long_break_minutes: "-15".to_string(),
        long_break_every: "4".to_string(),
    };
    assert_eq!(d.parse(), None);
}

#[test]
fn parse_keeps_draft_text() {
    let d = SettingsDraft {
        work_minutes: "bogus".to_string(),
        short_break_minutes: "5".to_string(),
        long_break_minutes: "15".to_string(),
        long_break_every: "4".to_string(),
    };
    assert_eq!(d.parse(), None);
    assert_eq!(d.work_minutes, "bogus");
    assert_eq!(d.short_break_minutes, "5");
    assert_eq!(d.long_break_minutes, "15");
    assert_eq!(d.long_break_every, "4");
}

#[test]
fn parse_accepts_spaces_and_plus() {
    let d = SettingsDraft {
        work_minutes: " 25 ".to_string(),
        short_break_minutes: "+5".to_string(),
        long_break_minutes: "\t15\n".to_string(),
        long_break_every: "\u{a0}4\u{a0}".to_string(),
    };
    assert_eq!(d.parse(), Some(default_settings()));
}

#[test]
fn parse_saturates_large_minutes() {
    let d = SettingsDraft {
        work_minutes: "100000000".to_string(),
        short_break_minutes: "5".to_string(),
        long_break_minutes: "15".to_string(),
        long_break_every: "4".to_string(),
    };
    let s = d.parse().unwrap();
    assert_eq!(s.work_seconds, u32::MAX);
    assert_eq!(s.short_break_seconds, 300);
}

#[test]
fn parse_rejects_minutes_beyond_u32() {
    let d = SettingsDraft {
        work_minutes: "4294967296".to_string(),
        short_break_minutes: "5".to_string(),
        long_break_minutes: "15".to_string(),
        long_break_every: "4".to_string(),
    };
    assert_eq!(d.parse(), None);
}
