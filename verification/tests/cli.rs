use lib::cli::{select_command, Command};

fn args(items: &[&str]) -> Vec<String> {
    items.iter().map(|item| item.to_string()).collect()
}

#[test]
fn subcommands_are_found_with_or_without_the_cargo_prefix() {
    assert_eq!(select_command(&args(&["simd", "doctor", "--deep"])), (Command::Doctor, 2));
    assert_eq!(select_command(&args(&["verify", "--json"])), (Command::Verify, 1));
    assert_eq!(select_command(&args(&["simd", "build"])), (Command::Build, 2));
    assert_eq!(select_command(&args(&["test"])), (Command::Test, 1));
    assert_eq!(select_command(&args(&["simd"])).0, Command::Help);
    assert_eq!(select_command(&args(&[])).0, Command::Help);
    assert_eq!(select_command(&args(&["-h"])).0, Command::Help);
    assert_eq!(select_command(&args(&["--version"])).0, Command::Version);
    assert_eq!(select_command(&args(&["simd", "-V"])).0, Command::Version);
    assert_eq!(select_command(&args(&["simd", "simd"])), (Command::Unknown("simd".to_owned()), 2));
    assert_eq!(select_command(&args(&["frobnicate", "x"])), (Command::Unknown("frobnicate".to_owned()), 1));
}
