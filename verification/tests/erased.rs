//! State erasure and checked re-entry.

use pg_proto::auth::Ready;
use pg_proto::conn::{Conn, Dirty, Pristine};
use pg_proto::server_auth::ServerAuth;
use pg_proto::server_session::{CopyExtended, CopySimple, ServerCopyIn};
use pg_proto::session::{Building, FunctionCalling};

#[test]
fn exact_state_can_be_erased_and_reentered() {
    let ready: Conn<_, Ready, Pristine> = Conn::new(42_u8).transition();
    let erased = ready.erase();
    assert!(erased.phase_is::<Ready>());
    assert!(erased.cleanliness_is::<Pristine>());

    let ready = erased
        .try_reenter::<Ready, Pristine>()
        .expect("exact state identities match");
    assert_eq!(ready.into_transport(), 42);
}

#[test]
fn failed_reentry_preserves_the_erased_connection() {
    let building: Conn<_, Building, Dirty> = Conn::new(42_u8).transition();
    let erased = building.erase();

    let erased = erased
        .try_reenter::<Ready, Dirty>()
        .expect_err("wrong phase must not re-enter");
    let erased = erased
        .try_reenter::<Building, Pristine>()
        .expect_err("wrong cleanliness must not re-enter");
    let building = erased
        .try_reenter::<Building, Dirty>()
        .expect("both exact identities match");
    assert_eq!(building.into_transport(), 42);
}

#[test]
fn server_phases_are_erased_exactly() {
    let simple: Conn<_, ServerCopyIn<CopySimple>, Dirty> = Conn::new(42_u8).transition();
    let erased = simple.erase();
    assert!(!erased.phase_is::<ServerCopyIn<CopyExtended>>());
    assert_eq!(
        erased.phase_name(),
        "pg_proto::server_session::ServerCopyIn<pg_proto::server_session::CopySimple>"
    );
    let erased = erased
        .try_reenter::<ServerCopyIn<CopyExtended>, Dirty>()
        .expect_err("the other cycle must not re-enter");
    assert!(erased.try_reenter::<ServerCopyIn<CopySimple>, Dirty>().is_ok());

    let calling: Conn<_, FunctionCalling, Dirty> = Conn::new(42_u8).transition();
    let erased = calling.erase();
    assert!(erased.phase_is::<FunctionCalling>());
    assert!(!erased.phase_is::<ServerAuth>());
}

#[test]
fn transport_mapping_does_not_change_erased_state() {
    let ready: Conn<_, Ready, Pristine> = Conn::new(42_u8).transition();
    let erased = ready.erase().map_transport(u16::from);

    let ready = erased
        .try_reenter::<Ready, Pristine>()
        .expect("mapping retained exact identities");
    assert_eq!(ready.into_transport(), 42_u16);
}
