use fiberlamp::{classic_cli, cli, ffi, macos};

#[test]
fn macos_default_config() {
    let config = macos::fiberlamp_default_config();
    assert_eq!(config, macos::FiberlampCConfig { fiber_count: 500, ncolors: 64, msaa_samples: 4 });
    assert_eq!(macos::fiberlamp_min_fibers(), 10);
    assert_eq!(macos::fiberlamp_max_fibers(), 500);
}

#[test]
fn macos_config_is_clamped() {
    let settings = macos::init_settings(&macos::FiberlampCConfig { fiber_count: 3, ncolors: 0, msaa_samples: 7 });
    assert_eq!(settings.session.fiber_count, 10);
    assert_eq!(settings.session.ncolors, 0);
    assert_eq!(settings.msaa_samples, 7);
    let settings = macos::init_settings(&macos::FiberlampCConfig { fiber_count: 900, ncolors: 12, msaa_samples: 1 });
    assert_eq!(settings.session.fiber_count, 500);
    assert_eq!(settings.session.ncolors, 12);
    let settings = macos::init_settings(&macos::FiberlampCConfig { fiber_count: 123, ncolors: 12, msaa_samples: 1 });
    assert_eq!(settings.session.fiber_count, 123);
}

#[test]
fn macos_plain_init_uses_defaults() {
    let settings = macos::default_init_settings();
    assert_eq!(settings.session.fiber_count, 500);
    assert_eq!(settings.session.ncolors, 64);
    assert_eq!(settings.msaa_samples, 4);
}

#[test]
fn ffi_config() {
    let config = ffi::fiberlamp_default_config();
    assert_eq!(config, ffi::FiberlampConfig { fiber_count: 500, ncolors: 64, msaa_samples: 4 });
    assert_eq!(ffi::fiberlamp_min_fibers(), 10);
    assert_eq!(ffi::fiberlamp_max_fibers(), 500);
    assert_eq!(ffi::default_init_settings(), ffi::init_settings(&config));
    let settings = ffi::init_settings(&ffi::FiberlampConfig { fiber_count: 0, ncolors: 5, msaa_samples: 2 });
    assert_eq!(settings.session.fiber_count, 10);
    assert_eq!(settings.session.ncolors, 5);
    assert_eq!(settings.msaa_samples, 2);
}

#[test]
fn interactive_defaults() {
    let args = cli::Args::default();
    assert_eq!(args.count, 500);
    assert_eq!(args.delay, 16);
    assert_eq!(args.ncolors, 64);
    assert!(!args.windowed);
    assert_eq!(args.msaa, 1);
    assert!(!args.debug);
    assert!(args.fullscreen());
    assert_eq!(args.msaa_sample_count(), 1);
}

#[test]
fn interactive_options_shape_the_session() {
    let args = cli::Args { count: 2000, delay: 16, ncolors: 32, windowed: true, msaa: 3, debug: true };
    let session = args.session_config();
    assert_eq!(session.fiber_count, 500);
    assert_eq!(session.ncolors, 32);
    assert_eq!(args.msaa_sample_count(), 4);
    assert!(!args.fullscreen());
    assert!(args.draws_collision_circle(true));
    assert!(!args.draws_collision_circle(false));
    let quiet = cli::Args { debug: false, ..args };
    assert!(!quiet.draws_collision_circle(true));
}

#[test]
fn classic_options() {
    let args = classic_cli::Args::default();
    assert_eq!(args, classic_cli::Args { count: 500, delay: 16, ncolors: 64, windowed: false });
    let session = classic_cli::Args { count: 1, ..args }.session_config();
    assert_eq!(session.fiber_count, 10);
    assert_eq!(session.ncolors, 64);
}
