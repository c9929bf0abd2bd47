use pywr_core::solvers::{ClpSolverSettings, ClpSolverSettingsBuilder, SolverSettings};

#[test]
fn builder_test() {
    let settings = ClpSolverSettings {
        parallel: true,
        threads: 0,
    };
    let settings_from_builder = ClpSolverSettingsBuilder::default().parallel().build();

    assert_eq!(settings_from_builder, settings_from_builder);
    assert_eq!(settings_from_builder, settings);
}

#[test]
fn builder_sets_threads() {
    let settings = ClpSolverSettings::builder().parallel().threads(4).build();
    assert!(settings.parallel());
    assert_eq!(settings.threads(), 4);
}

#[test]
fn default_settings_leave_the_choice_to_the_solver() {
    let settings = ClpSolverSettings::default();
    assert!(!settings.parallel());
    assert_eq!(settings.threads(), 0);
    assert_eq!(settings, ClpSolverSettingsBuilder::default().build());
}
