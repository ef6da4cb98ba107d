use app_shell::startup::{startup_plan, Plugin, StartupPlan};

#[test]
fn builder_phase_holds_dialog_process_opener_in_order() {
    let plan = startup_plan();
    assert_eq!(
        plan.builder_plugins,
        vec![Plugin::Dialog, Plugin::Process, Plugin::Opener]
    );
}

#[test]
fn setup_hook_installs_the_updater() {
    let plan = startup_plan();
    assert_eq!(plan.setup_plugins, vec![Plugin::Updater]);
}

#[test]
fn startup_plan_registers_all_four_plugins() {
    let plan = startup_plan();
    assert!(plan.registers(Plugin::Dialog));
    assert!(plan.registers(Plugin::Updater));
    assert!(plan.registers(Plugin::Process));
    assert!(plan.registers(Plugin::Opener));
}

#[test]
fn a_partial_plan_reports_missing_plugins() {
    let plan = StartupPlan {
        builder_plugins: vec![Plugin::Dialog],
        setup_plugins: vec![],
    };
    assert!(plan.registers(Plugin::Dialog));
    assert!(!plan.registers(Plugin::Updater));
    assert!(!plan.registers(Plugin::Process));
    assert!(!plan.registers(Plugin::Opener));
}

#[test]
fn an_empty_plan_registers_nothing() {
    let plan = StartupPlan {
        builder_plugins: vec![],
        setup_plugins: vec![],
    };
    assert!(!plan.registers(Plugin::Dialog));
    assert!(!plan.registers(Plugin::Updater));
}
