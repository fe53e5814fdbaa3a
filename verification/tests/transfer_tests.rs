use polkabind::balance::{interpret_account, AccountData};
use polkabind::errors::Failure;
use polkabind::transfer::{prepare_transfer, TransferIntent};
use polkabind::watcher::{watch, TransactionOutcome, WatchEvent};

const DEST_HEX: &str = "0x8eaf04151687736326c9fea17e25fc5287613693c912909cb226aa4794f26a48";
const DEV_PHRASE: &str = "bottom drive obey lake curtain smoke basket hold race lonely fit walk";

#[test]
fn short_address_is_a_decode_error() {
    let r = prepare_transfer("0xdeadbeef", 1_000_000_000_000, DEV_PHRASE);
    assert_eq!(r.err().unwrap(), Failure::Decode);
}

#[test]
fn bad_address_wins_over_bad_secret() {
    let r = prepare_transfer("0xdeadbeef", 1, "definitely not a valid seed phrase");
    assert_eq!(r.err().unwrap(), Failure::Decode);
}

#[test]
fn bad_secret_is_a_signing_error() {
    let r = prepare_transfer(DEST_HEX, 1, "definitely not a valid seed phrase");
    assert_eq!(r.err().unwrap(), Failure::Signing);
}

#[test]
fn valid_inputs_prepare_the_exact_call() {
    let p = prepare_transfer(DEST_HEX, 1_000_000_000_000, DEV_PHRASE).expect("must prepare");
    assert_eq!(p.call.pallet, "Balances");
    assert_eq!(p.call.method, "transfer_allow_death");
    assert_eq!(
        p.call.dest.as_bytes().as_slice(),
        hex::decode(&DEST_HEX[2..]).unwrap().as_slice()
    );
    assert_eq!(p.call.amount, 1_000_000_000_000);
}

#[test]
fn derivation_path_secrets_are_accepted() {
    let p = prepare_transfer(DEST_HEX, 5, "//Alice").expect("dev secret must derive");
    assert_eq!(p.call.amount, 5);
}

#[test]
fn preparation_is_deterministic_in_the_call() {
    let a = prepare_transfer(DEST_HEX, 7, DEV_PHRASE).unwrap();
    let b = prepare_transfer(DEST_HEX, 7, DEV_PHRASE).unwrap();
    assert_eq!(a.call.pallet, b.call.pallet);
    assert_eq!(a.call.method, b.call.method);
    assert_eq!(a.call.dest.as_bytes(), b.call.dest.as_bytes());
    assert_eq!(a.call.amount, b.call.amount);
}

#[test]
fn intent_validates_the_destination() {
    let i = TransferIntent::new(DEST_HEX, 42).expect("valid destination");
    assert_eq!(i.amount, 42);
    assert_eq!(
        i.destination.as_bytes().as_slice(),
        hex::decode(&DEST_HEX[2..]).unwrap().as_slice()
    );
    assert_eq!(TransferIntent::new("0x00", 42).err().unwrap(), Failure::Decode);
}

#[test]
fn prepared_transfer_watched_to_success_credits_the_destination() {
    // The offline mirror of a full happy-path submission: a valid address,
    // amount and secret prepare the exact call; the node reports inclusion
    // and then successful finalization; a later balance read of the
    // destination reflects the credited amount.
    let amount = 1_000_000_000_000u128;
    let p = prepare_transfer(DEST_HEX, amount, DEV_PHRASE).expect("valid inputs");
    assert_eq!(p.call.amount, amount);

    let outcome = watch(vec![WatchEvent::InBlock, WatchEvent::FinalizedOk]);
    assert_eq!(outcome, Ok(TransactionOutcome::FinalizedSuccess));

    let after = interpret_account(Some(AccountData { free: amount, reserved: 0 }));
    assert_eq!(after.free, amount);
}
