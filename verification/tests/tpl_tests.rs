//! Priority-level raising and restoring, the scoped guard, and their
//! round-trip discipline.

use boot_services::fatal::{Fatal, Op};
use boot_services::table::{BootServicesTable, StandardBootServices};
use boot_services::tpl::{
    raise_tpl_result, Tpl, TplModel, TPL_APPLICATION, TPL_CALLBACK, TPL_HIGH_LEVEL, TPL_NOTIFY,
};

#[test]
fn the_levels_match_the_platform_values() {
    assert_eq!(TPL_APPLICATION, r_efi::efi::TPL_APPLICATION);
    assert_eq!(TPL_CALLBACK, r_efi::efi::TPL_CALLBACK);
    assert_eq!(TPL_NOTIFY, r_efi::efi::TPL_NOTIFY);
    assert_eq!(TPL_HIGH_LEVEL, r_efi::efi::TPL_HIGH_LEVEL);
    assert_eq!(Tpl::application().level, TPL_APPLICATION);
    assert_eq!(Tpl::callback().level, TPL_CALLBACK);
    assert_eq!(Tpl::notify().level, TPL_NOTIFY);
    assert_eq!(Tpl::high_level().level, TPL_HIGH_LEVEL);
}

#[test]
fn test_raise_tpl() {
    let mut table = BootServicesTable::empty();
    table.raise_tpl = 0x100;
    let bs = StandardBootServices::new(table);

    let call = bs.raise_tpl_call(Tpl::notify()).unwrap();
    assert_eq!(call.entry, 0x100);
    assert_eq!(call.new_tpl, r_efi::efi::TPL_NOTIFY);

    // The entry returns the prior level; it is handed on unchanged.
    let status = raise_tpl_result(r_efi::efi::TPL_APPLICATION);
    assert_eq!(Tpl::application(), status);
}

#[test]
fn test_restore_tpl() {
    let mut table = BootServicesTable::empty();
    table.restore_tpl = 0x100;
    let bs = StandardBootServices::new(table);

    let call = bs.restore_tpl_call(Tpl::application()).unwrap();
    assert_eq!(call.old_tpl, r_efi::efi::TPL_APPLICATION);
}

#[test]
fn test_raise_tpl_guarded() {
    let mut table = BootServicesTable::empty();
    table.raise_tpl = 0x100;
    table.restore_tpl = 0x200;
    let bs = StandardBootServices::new(table);
    assert!(bs.raise_tpl_call(Tpl::notify()).is_ok());
    assert!(bs.restore_tpl_call(Tpl::application()).is_ok());

    let mut current = TplModel {
        current: r_efi::efi::TPL_APPLICATION,
    };
    let guard = current.raise_tpl_guarded(Tpl::notify());
    assert_eq!(Tpl::application(), guard.retore_tpl);
    assert_eq!(r_efi::efi::TPL_NOTIFY, current.current);
    guard.release(&mut current);
    assert_eq!(r_efi::efi::TPL_APPLICATION, current.current);
}

#[test]
fn raising_then_restoring_returns_to_every_starting_level() {
    for start in [TPL_APPLICATION, TPL_CALLBACK, TPL_NOTIFY, TPL_HIGH_LEVEL] {
        for target in [TPL_CALLBACK, TPL_NOTIFY, TPL_HIGH_LEVEL] {
            let mut m = TplModel { current: start };
            let prev = m.raise(Tpl { level: target });
            assert_eq!(m.current, target);
            m.restore(prev);
            assert_eq!(m.current, start);
        }
    }
}

#[test]
fn the_guard_restores_on_an_early_exit_path() {
    // The release happens on whichever path lets go of the guard; the
    // restored level is the recorded one either way.
    let mut m = TplModel {
        current: TPL_APPLICATION,
    };
    let guard = m.raise_tpl_guarded(Tpl::high_level());
    let took_early_path = m.current == TPL_HIGH_LEVEL;
    if took_early_path {
        guard.release(&mut m);
        assert_eq!(m.current, TPL_APPLICATION);
        return;
    }
    unreachable!();
}

#[test]
fn raising_on_an_uninitialized_handle_is_the_fatal_usage_error() {
    let bs = StandardBootServices::new_uninit();
    assert_eq!(
        bs.raise_tpl_call(Tpl::callback()),
        Err(Fatal::NotInitialized)
    );
    assert_eq!(
        bs.restore_tpl_call(Tpl::application()),
        Err(Fatal::NotInitialized)
    );
}

#[test]
fn raising_through_an_absent_entry_names_the_operation() {
    let bs = StandardBootServices::new(BootServicesTable::empty());
    assert_eq!(
        bs.raise_tpl_call(Tpl::notify()),
        Err(Fatal::EntryAbsent(Op::RaiseTpl))
    );
    assert_eq!(
        bs.restore_tpl_call(Tpl::notify()),
        Err(Fatal::EntryAbsent(Op::RestoreTpl))
    );
}
