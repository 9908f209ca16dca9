use clewdr::family::{model_family, ModelFamily};

#[test]
fn families_by_name() {
    assert_eq!(model_family("big-opus-4-1"), ModelFamily::Opus);
    assert_eq!(model_family("mid-sonnet-4"), ModelFamily::Sonnet);
    assert_eq!(model_family("3-haiku"), ModelFamily::Other);
    assert_eq!(model_family(""), ModelFamily::Other);
}

#[test]
fn family_ignores_case() {
    assert_eq!(model_family("BIG-OPUS"), ModelFamily::Opus);
    assert_eq!(model_family("SonNet"), ModelFamily::Sonnet);
}

#[test]
fn opus_goes_before_sonnet() {
    assert_eq!(model_family("sonnet-opus"), ModelFamily::Opus);
}

#[test]
fn part_at_the_very_end_is_found() {
    assert_eq!(model_family("xopus"), ModelFamily::Opus);
    assert_eq!(model_family("opu"), ModelFamily::Other);
    assert_eq!(model_family("sonne"), ModelFamily::Other);
}

#[test]
fn only_ascii_capitals_are_lowered() {
    assert_eq!(model_family("\u{d6}pus"), ModelFamily::Other);
    assert_eq!(model_family("\u{e9}OPUS"), ModelFamily::Opus);
}
