#![allow(non_snake_case)]

use io_providers::env::Virtual;
use io_providers::SysPath;

#[test]
fn current_dir__default__returns_root() {
    let provider = Virtual::new();
    let result = provider.current_dir().unwrap();
    assert_eq!(SysPath::root(), result);
}

#[test]
fn virtual_provider_current_dir__set_and_get__success() {
    let mut provider = Virtual::new();
    let path = SysPath::new(true, vec!["foo".to_string(), "bar".to_string()]);

    provider.set_current_dir(&path).unwrap();
    let result = provider.current_dir().unwrap();

    assert_eq!(path, result);
}

#[test]
fn args__default__returns_empty() {
    let provider = Virtual::new();
    let result = provider.args();
    assert_eq!(0, result.len());
}

#[test]
fn virtual_provider_args__set_and_get__success() {
    let mut provider = Virtual::new();
    let args = vec!["app".to_string(), "arg1".to_string(), "arg2".to_string()];

    provider.set_args(args.clone());
    let result = provider.args();

    assert_eq!(args, result);
}
