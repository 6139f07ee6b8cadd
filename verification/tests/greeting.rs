use greet_calc::account::Account;
use greet_calc::error::Error;
use greet_calc::greeting::{process_instruction, GreetingAccount};
use greet_calc::ownership::Identity;

fn identity(fill: u8) -> Identity {
    Identity { bytes: [fill; 32] }
}

fn greeting_account(owner: u8, counter: u32) -> Account {
    Account { owner: identity(owner), data: counter.to_le_bytes().to_vec() }
}

#[test]
fn record_round_trips_through_bytes() {
    let record = GreetingAccount { counter: 41 };
    let mut buf = vec![0u8; 4];
    record.encode(&mut buf);
    assert_eq!(GreetingAccount::decode(&buf), Ok(record));
}

#[test]
fn three_greetings_count_three() {
    let program_id = identity(7);
    let mut account = greeting_account(7, 0);
    for _ in 0..3 {
        assert_eq!(process_instruction(&program_id, &mut account, &[]), Ok(()));
    }
    assert_eq!(GreetingAccount::decode(&account.data), Ok(GreetingAccount { counter: 3 }));
}

#[test]
fn greeting_starts_from_stored_value() {
    let program_id = identity(7);
    let mut account = greeting_account(7, 41);
    assert_eq!(process_instruction(&program_id, &mut account, &[]), Ok(()));
    assert_eq!(GreetingAccount::decode(&account.data), Ok(GreetingAccount { counter: 42 }));
}

#[test]
fn counter_wraps_at_maximum() {
    let program_id = identity(7);
    let mut account = greeting_account(7, u32::MAX);
    assert_eq!(process_instruction(&program_id, &mut account, &[]), Ok(()));
    assert_eq!(GreetingAccount::decode(&account.data), Ok(GreetingAccount { counter: 0 }));
}

#[test]
fn foreign_owner_is_denied_and_bytes_kept() {
    let program_id = identity(7);
    let mut account = greeting_account(8, 5);
    let before = account.data.clone();
    let r = process_instruction(&program_id, &mut account, &[]);
    assert_eq!(r, Err(Error::IncorrectAuthority));
    assert_eq!(account.data, before);
}

#[test]
fn one_differing_owner_byte_is_denied() {
    let program_id = identity(7);
    let mut owner = identity(7);
    owner.bytes[31] = 6;
    let mut account = Account { owner, data: vec![0u8; 4] };
    let r = process_instruction(&program_id, &mut account, &[]);
    assert_eq!(r, Err(Error::IncorrectAuthority));
}

#[test]
fn wrong_record_length_is_malformed() {
    let program_id = identity(7);
    for len in [0usize, 3, 5] {
        let mut account = Account { owner: identity(7), data: vec![0u8; len] };
        let before = account.data.clone();
        let r = process_instruction(&program_id, &mut account, &[]);
        assert_eq!(r, Err(Error::MalformedRecord), "length {} must be rejected", len);
        assert_eq!(account.data, before);
    }
}

#[test]
fn record_layout_matches_borsh() {
    let record = GreetingAccount { counter: 1 };
    let mut buf = vec![0u8; 4];
    record.encode(&mut buf);
    assert_eq!(buf, borsh::to_vec(&1u32).unwrap());
}
