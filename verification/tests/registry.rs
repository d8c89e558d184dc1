use sidecar_supervisor::process::{Handle, Role};
use sidecar_supervisor::registry::Registry;

#[test]
fn new_registry_is_empty() {
    let reg = Registry::new();
    assert!(reg.is_empty());
    assert_eq!(reg.slot(Role::Database), None);
    assert_eq!(reg.slot(Role::Backend), None);
}

#[test]
fn take_returns_what_store_put() {
    let mut reg = Registry::new();
    reg.store(Role::Backend, Handle { pid: 41 });
    assert_eq!(reg.take(Role::Backend), Some(Handle { pid: 41 }));
}

#[test]
fn second_take_finds_the_slot_empty() {
    let mut reg = Registry::new();
    reg.store(Role::Database, Handle { pid: 7 });
    assert_eq!(reg.take(Role::Database), Some(Handle { pid: 7 }));
    assert_eq!(reg.take(Role::Database), None);
}

#[test]
fn take_before_store_is_absent() {
    let mut reg = Registry::new();
    assert_eq!(reg.take(Role::Database), None);
    assert_eq!(reg.take(Role::Database), None);
}

#[test]
fn roles_are_independent() {
    let mut reg = Registry::new();
    reg.store(Role::Database, Handle { pid: 1 });
    reg.store(Role::Backend, Handle { pid: 2 });
    assert_eq!(reg.take(Role::Database), Some(Handle { pid: 1 }));
    assert_eq!(reg.slot(Role::Backend), Some(Handle { pid: 2 }));
    assert_eq!(reg.take(Role::Backend), Some(Handle { pid: 2 }));
    assert!(reg.is_empty());
}

#[test]
fn store_overwrites_without_touching_the_other_slot() {
    let mut reg = Registry::new();
    reg.store(Role::Backend, Handle { pid: 10 });
    reg.store(Role::Backend, Handle { pid: 11 });
    assert_eq!(reg.slot(Role::Database), None);
    assert_eq!(reg.take(Role::Backend), Some(Handle { pid: 11 }));
}
