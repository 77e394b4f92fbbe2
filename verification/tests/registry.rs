use iris::registry::{Generator, GeneratorMock, GeneratorRegistry, RegistryError, get_all};
use iris::state::State;
use iris::{GeneratorKind, GeneratorType, Strategy};

fn mock(name: &str, g_type: GeneratorType, installed: bool, strategy: Strategy) -> Generator {
    Generator::Mock(GeneratorMock { name: name.to_string(), g_type, installed, strategy })
}

/// The registry of the original tests: two terminals and a prompt.
fn setup_registry() -> GeneratorRegistry {
    GeneratorRegistry::from_generators(vec![
        mock("alacritty", GeneratorType::Terminal, true, Strategy::Symlink),
        mock("zsh", GeneratorType::Prompt, false, Strategy::Pipeline { steps: vec![] }),
        mock("kitty", GeneratorType::Terminal, true, Strategy::Symlink),
    ])
}

#[test]
fn registry_should_return_all_sorted_generators() {
    let reg = setup_registry();
    let all = reg.all();

    assert_eq!(all[0].name(), "alacritty");
    assert_eq!(all[1].name(), "kitty");
    assert_eq!(all[2].name(), "zsh");
}

#[test]
fn registry_should_handle_get_and_exists_for_registry() {
    let reg = setup_registry();

    assert!(reg.has_generator("alacritty"));
    assert!(!reg.has_generator("windows_terminal"));

    let gr = reg.get("kitty");
    assert!(gr.is_some());
    assert_eq!(gr.unwrap().name(), "kitty");
}

#[test]
fn registry_should_handle_filtering_by_type_for_generators() {
    let reg = setup_registry();
    let terminals = reg.by_type(GeneratorType::Terminal);

    assert_eq!(terminals.len(), 2);
    assert_eq!(terminals[0].name(), "alacritty");
    assert_eq!(terminals[1].name(), "kitty");
}

#[test]
fn registry_should_apply_installed_filters_for_generators() {
    let reg = setup_registry();
    let installed = reg.installed();

    assert_eq!(installed.len(), 2);
    assert!(installed.iter().any(|g| g.name() == "alacritty"));
    assert!(!installed.iter().any(|g| g.name() == "zsh"));
}

#[test]
fn registry_should_discover_unenabled_generators() {
    let reg = setup_registry();
    let mut state = State::new();

    state.enable_generator("alacritty");
    let unenabled = reg.discover_unenabled(&state);

    assert_eq!(unenabled.len(), 1);
    assert_eq!(unenabled[0].name(), "kitty");
}

#[test]
fn registry_should_test_generator_type_set() {
    let reg = setup_registry();
    let types = reg.types();

    assert_eq!(types.len(), 2);
    assert!(types.contains(&GeneratorType::Terminal));
    assert!(types.contains(&GeneratorType::Prompt));
}

#[test]
fn registry_should_return_array_string_of_active_generators() {
    let reg = setup_registry();
    let mut state = State::new();

    state.enable_generator("alacritty");
    state.enable_generator("zsh");
    state.enable_generator("kitty");

    colored::control::set_override(false);
    let array = reg.active(&state);
    assert_eq!(array, "alacritty, zsh, kitty");
}

#[test]
fn registry_lists_by_category_then_name() {
    let reg = GeneratorRegistry::from_generators(vec![
        mock("b", GeneratorType::System, true, Strategy::Symlink),
        mock("z", GeneratorType::Terminal, true, Strategy::Symlink),
        mock("a", GeneratorType::System, true, Strategy::Symlink),
        mock("B", GeneratorType::System, true, Strategy::Symlink),
        mock("m", GeneratorType::Tool, true, Strategy::Symlink),
    ]);
    assert_eq!(reg.names(), vec!["z", "m", "B", "a", "b"]);
}

#[test]
fn registry_sort_is_stable_and_lookup_takes_the_last() {
    let reg = GeneratorRegistry::from_generators(vec![
        mock("dup", GeneratorType::Tool, false, Strategy::Symlink),
        mock("dup", GeneratorType::Tool, true, Strategy::Symlink),
    ]);
    let all = reg.all();
    assert!(!all[0].is_installed());
    assert!(all[1].is_installed());
    assert!(reg.is_installed("dup"));
}

#[test]
fn registry_reports_a_missing_generator() {
    let reg = setup_registry();
    match reg.get_required("nope") {
        Err(e) => {
            assert_eq!(e.message(), "Generator `nope` not found in registry!");
            assert!(matches!(e, RegistryError::NotFound(ref n) if n == "nope"));
        }
        Ok(_) => panic!("expected an error"),
    }
    assert!(reg.get_required("kitty").is_ok());
    assert!(!reg.is_installed("nope"));
}

#[test]
fn registry_enabled_and_installed() {
    let reg = setup_registry();
    let mut state = State::new();
    state.enable_generator("zsh");
    state.enable_generator("kitty");
    let picked: Vec<&str> = reg.enabled_and_installed(&state).iter().map(|g| g.name()).collect();
    assert_eq!(picked, vec!["kitty"]);
}

#[test]
fn registry_empty_by_default() {
    let reg = GeneratorRegistry::default();
    assert!(reg.all().is_empty());
    assert!(reg.types().is_empty());
    assert_eq!(reg.active(&State::new()), "");
}

#[test]
fn registry_new_holds_the_registered_applications_in_order() {
    let reg = GeneratorRegistry::new();
    assert_eq!(
        reg.names(),
        vec!["alacritty", "ghostty", "bat", "fzf", "yazi", "starship", "herdr", "tmux", "bottom", "btop"]
    );
    assert_eq!(
        reg.types(),
        vec![
            GeneratorType::Terminal,
            GeneratorType::Tool,
            GeneratorType::Prompt,
            GeneratorType::Multiplexer,
            GeneratorType::System
        ]
    );
}

#[test]
fn get_all_lists_each_category() {
    assert_eq!(get_all(GeneratorType::Terminal), vec![GeneratorKind::Alacritty, GeneratorKind::Ghostty]);
    assert_eq!(get_all(GeneratorType::Prompt), vec![GeneratorKind::Starship]);
    assert_eq!(
        get_all(GeneratorType::Tool),
        vec![GeneratorKind::Bat, GeneratorKind::Yazi, GeneratorKind::Fzf]
    );
}

#[test]
fn state_enables_once_and_disables() {
    let mut state = State::new();
    state.enable_generator("bat");
    state.enable_generator("bat");
    assert!(state.is_enabled("bat"));
    state.disable_generator("bat");
    assert!(!state.is_enabled("bat"));
}

#[test]
fn check_all_splits_enabled_generators_by_health() {
    let reg = setup_registry();
    let mut state = State::new();
    state.enable_generator("kitty");
    let home = iris::FsPath::new("/home/u");
    let paths = iris::IrisPaths::under(&home);
    let env = iris::HostEnv::empty();
    let fs = iris::FsSnapshot { entries: vec![] };
    let (healthy, errors) = reg.check_all(&state, &paths, &env, "x", &fs);
    assert_eq!(healthy.len(), 1);
    assert_eq!(healthy[0].0.name(), "kitty");
    assert!(errors.is_empty());
}
