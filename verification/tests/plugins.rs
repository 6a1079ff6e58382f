use wasm_audio::mul;
use wasm_audio::plugin::EngineCommand;
use wasm_audio::reverb;
use wasm_audio::sin::{self, SinParam};
use wasm_audio::techno::{self, TechnoParam};
use wasm_audio::tone;

fn b(x: f32) -> u32 {
    x.to_bits()
}

#[test]
fn sin_starts_with_its_defaults() {
    let c = sin::Component::new();
    assert_eq!(c.phase, b(0.0));
    assert_eq!(c.frequency, b(440.0));
    assert_eq!(c.sample_rate, b(48000.0));
    assert_eq!(c.amplitude, b(1.0));
}

#[test]
fn sin_keys_and_aliases() {
    let keys = [
        ("phase", SinParam::Phase),
        ("frequency", SinParam::Frequency),
        ("freq", SinParam::Frequency),
        ("sample_rate", SinParam::SampleRate),
        ("sr", SinParam::SampleRate),
        ("amplitude", SinParam::Amplitude),
        ("amp", SinParam::Amplitude),
    ];
    for (key, p) in keys {
        let mut c = sin::Component::new();
        assert!(c.set(key, b(0.25)));
        assert_eq!(c.get(p), b(0.25));
        assert_eq!(sin::Component::key_param(key), Some(p));
    }
    let mut c = sin::Component::new();
    c.set("freq", b(220.0));
    assert_eq!(c.frequency, b(220.0));
    assert_eq!(c.amplitude, b(1.0));
    assert_eq!(c.sample_rate, b(48000.0));
}

#[test]
fn sin_unknown_key_changes_nothing() {
    let mut c = sin::Component::new();
    assert!(!c.set("volume", b(0.5)));
    assert!(!c.set("Freq", b(0.5)));
    assert_eq!(c, sin::Component::new());
}

#[test]
fn sin_offers_frequency_and_amplitude() {
    let ps = sin::Component::get_params();
    assert_eq!(ps.len(), 2);
    assert_eq!(ps[0].name, "frequency");
    assert_eq!(f32::from_bits(ps[0].min), 20.0);
    assert_eq!(f32::from_bits(ps[0].max), 20000.0);
    assert_eq!(f32::from_bits(ps[0].default), 440.0);
    assert_eq!(ps[1].name, "amplitude");
    assert_eq!(f32::from_bits(ps[1].min), 0.0);
    assert_eq!(f32::from_bits(ps[1].max), 1.0);
    assert_eq!(f32::from_bits(ps[1].default), 1.0);
}

#[test]
fn sin_offered_params_are_settable_with_initial_defaults() {
    let c = sin::Component::new();
    for p in sin::Component::get_params() {
        let param = sin::Component::key_param(&p.name).expect("offered name is a key");
        assert_eq!(c.get(param), p.default);
        let mut d = c;
        assert!(d.set(&p.name, b(3.0)));
        assert_eq!(d.get(param), b(3.0));
    }
}

#[test]
fn mul_factor() {
    let mut c = mul::Component::new();
    assert_eq!(c.factor, b(1.0));
    assert!(c.set("factor", b(0.5)));
    assert_eq!(c.factor, b(0.5));
    assert!(!c.set("gain", b(0.1)));
    assert_eq!(c.factor, b(0.5));
    let ps = mul::Component::get_params();
    assert_eq!(ps.len(), 1);
    assert_eq!(ps[0].name, "factor");
    assert_eq!(f32::from_bits(ps[0].min), 0.0);
    assert_eq!(f32::from_bits(ps[0].max), 1.0);
    assert_eq!(ps[0].default, mul::Component::new().factor);
}

#[test]
fn tone_setters() {
    let mut c = tone::Component::new();
    assert_eq!(c.frequency, b(0.0));
    assert_eq!(c.sample_rate, b(48000.0));
    c.set_freq(b(1000.0));
    assert_eq!(c.frequency, b(1000.0));
    assert_eq!(c.sample_rate, b(48000.0));
    c.set_sr(b(44100.0));
    assert_eq!(c.sample_rate, b(44100.0));
    assert_eq!(c.frequency, b(1000.0));
    c.set_phase(b(0.5));
    assert_eq!(c.phase, b(0.5));
    assert_eq!(c.frequency, b(1000.0));
}

#[test]
fn reverb_defaults_and_commands() {
    let mut c = reverb::Component::new();
    assert_eq!(c.bandwidth, b(0.7));
    assert_eq!(c.damping, b(0.1));
    assert_eq!(c.decay, b(0.3));
    assert_eq!(c.mix, b(0.1));
    assert_eq!(c.set("sample_rate", b(44100.0)), EngineCommand::SetSampleRate(b(44100.0)));
    assert_eq!(c.set("sr", b(96000.0)), EngineCommand::SetSampleRate(b(96000.0)));
    assert_eq!(c, reverb::Component::new());
    assert_eq!(c.set("decay", b(0.5)), EngineCommand::UpdateCode);
    assert_eq!(c.decay, b(0.5));
    assert_eq!(c.set("mix", b(0.4)), EngineCommand::UpdateCode);
    assert_eq!(c.mix, b(0.4));
    assert_eq!(c.set("bpm", b(100.0)), EngineCommand::Ignore);
    assert_eq!(c.decay, b(0.5));
    assert_eq!(c.bandwidth, b(0.7));
}

#[test]
fn reverb_offers_current_values() {
    let mut c = reverb::Component::new();
    let ps = c.get_params();
    let names: Vec<&str> = ps.iter().map(|p| p.name.as_str()).collect();
    assert_eq!(names, ["bandwidth", "damping", "decay", "mix"]);
    assert_eq!(f32::from_bits(ps[2].max), 0.9999);
    for p in &ps {
        assert_eq!(f32::from_bits(p.min), 0.0);
    }
    assert_eq!(f32::from_bits(ps[0].default), 0.7);
    for (i, p) in ps.iter().enumerate() {
        assert_eq!(c.set(&p.name, b(0.25)), EngineCommand::UpdateCode);
        assert_eq!(c.get_params()[i].default, b(0.25));
    }
}

#[test]
fn reverb_make_code() {
    let code = "~a: #bandwidth #damping #decay\no: mix #wetmix #drymix #bandwidth";
    let out = reverb::make_code(code, "0.7", "0.1", "0.3", "0.1", "0.9");
    assert_eq!(out, "~a: 0.7 0.1 0.3\no: mix 0.1 0.9 0.7");
    let plain = "o: sin 440";
    assert_eq!(reverb::make_code(plain, "1", "2", "3", "4", "5"), plain);
}

#[test]
fn reverb_make_code_substitutes_in_order() {
    // A value that itself holds a later placeholder is replaced again by the later step.
    let out = reverb::make_code("#bandwidth", "#decay", "d", "x", "w", "y");
    assert_eq!(out, "x");
}

#[test]
fn techno_defaults_and_commands() {
    let mut c = techno::Component::new();
    assert_eq!(c.t1_amp, b(1.0));
    assert_eq!(c.t2_amp, b(0.6));
    assert_eq!(c.t3_amp, b(0.05));
    assert_eq!(c.bpm, b(120.0));
    assert_eq!(c.set("bpm", b(140.0)), EngineCommand::SetBpm(b(140.0)));
    assert_eq!(c.bpm, b(120.0));
    assert_eq!(c.set("sr", b(44100.0)), EngineCommand::SetSampleRate(b(44100.0)));
    assert_eq!(c.set("sample_rate", b(44100.0)), EngineCommand::SetSampleRate(b(44100.0)));
    assert_eq!(c.set("t2_amp", b(0.2)), EngineCommand::UpdateCode);
    assert_eq!(c.get(TechnoParam::T2Amp), b(0.2));
    assert_eq!(c.get(TechnoParam::T1Amp), b(1.0));
    assert_eq!(c.set("t4_amp", b(0.2)), EngineCommand::Ignore);
    assert_eq!(techno::Component::key_param("t3_amp"), Some(TechnoParam::T3Amp));
}

#[test]
fn techno_offers_tempo_and_amplitudes() {
    let ps = techno::Component::get_params();
    let names: Vec<&str> = ps.iter().map(|p| p.name.as_str()).collect();
    assert_eq!(names, ["bpm", "t1_amp", "t2_amp", "t3_amp"]);
    assert_eq!(f32::from_bits(ps[0].min), 40.0);
    assert_eq!(f32::from_bits(ps[0].max), 360.0);
    assert_eq!(f32::from_bits(ps[0].default), 120.0);
    assert_eq!(f32::from_bits(ps[2].default), 0.6);
    assert_eq!(f32::from_bits(ps[3].default), 0.05);
    let c = techno::Component::new();
    for p in &ps {
        let mut d = c;
        assert_ne!(d.set(&p.name, b(0.5)), EngineCommand::Ignore);
    }
    for p in &ps[1..] {
        let q = techno::Component::key_param(&p.name).unwrap();
        assert_eq!(c.get(q), p.default);
    }
}

#[test]
fn techno_make_code() {
    let out = techno::make_code("~t1: mul $t1_amp\n~t2: mul $t2_amp\n~t3: mul $t3_amp $t1_amp", "1", "0.6", "0.05");
    assert_eq!(out, "~t1: mul 1\n~t2: mul 0.6\n~t3: mul 0.05 1");
}

#[test]
fn later_setting_counts() {
    let mut a = sin::Component::new();
    a.set("amp", b(0.2));
    a.set("amplitude", b(0.9));
    assert_eq!(a.amplitude, b(0.9));

    let mut r = reverb::Component::new();
    r.set("damping", b(0.2));
    r.set("damping", b(0.3));
    let mut r2 = reverb::Component::new();
    r2.set("damping", b(0.3));
    assert_eq!(r, r2);

    let mut t = techno::Component::new();
    t.set("t1_amp", b(0.2));
    t.set("t1_amp", b(0.4));
    assert_eq!(t.t1_amp, b(0.4));

    let mut m = mul::Component::new();
    m.set("factor", b(0.2));
    m.set("factor", b(0.7));
    assert_eq!(m.factor, b(0.7));
}
