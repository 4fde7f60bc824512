use mining_pool::address::Address;
use mining_pool::hex_codec::HexFault;
use mining_pool::transaction::{
    DPCError, OfflineTransaction, OfflineTransactionBuilder, PrivateKey, Record,
    NUM_INPUT_RECORDS, NUM_OUTPUT_RECORDS,
};

fn address(n: u64) -> Address {
    Address { w0: n, w1: 0, w2: 0, w3: 0 }
}

fn key(name: &str) -> PrivateKey {
    PrivateKey { encoded: name.to_string() }
}

fn record(owner: u64, name: &str) -> Record {
    Record { owner: address(owner), encoded: name.to_string() }
}

#[test]
fn new_builder_is_empty() {
    let builder = OfflineTransactionBuilder::new();
    assert!(builder.inputs.is_empty());
    assert!(builder.outputs.is_empty());
    assert_eq!(builder.network_id, 1);
    assert_eq!(builder.memo, None);
    assert_eq!(NUM_INPUT_RECORDS, 2);
    assert_eq!(NUM_OUTPUT_RECORDS, 2);
}

#[test]
fn builder_takes_inputs_until_it_holds_more_than_a_transaction_spends() {
    let mut builder = OfflineTransactionBuilder::new();
    for i in 0..3 {
        builder = builder.add_input(key("k"), record(i, "r")).unwrap();
    }
    assert_eq!(builder.inputs.len(), 3);
    assert_eq!(builder.inputs[2].record.owner, address(2));
    let refused = builder.add_input(key("k"), record(9, "r"));
    assert_eq!(refused.unwrap_err(), DPCError::InvalidNumberOfInputs(4, 2));
}

#[test]
fn builder_takes_outputs_until_it_holds_more_than_a_transaction_creates() {
    let mut builder = OfflineTransactionBuilder::new();
    for i in 0..3 {
        builder = builder.add_output(address(i), 10 * i).unwrap();
    }
    assert_eq!(builder.outputs.len(), 3);
    assert_eq!(builder.outputs[1].amount, 10);
    let refused = builder.add_output(address(9), 1);
    assert_eq!(refused.unwrap_err(), DPCError::InvalidNumberOfOutputs(4, 2));
}

#[test]
fn builder_sets_network_and_memo() {
    let builder = OfflineTransactionBuilder::new().network_id(3).memo([7u8; 32]);
    assert_eq!(builder.network_id, 3);
    assert_eq!(builder.memo, Some([7u8; 32]));
    assert!(builder.inputs.is_empty());
}

#[test]
fn build_wants_one_or_two_inputs() {
    let none = OfflineTransactionBuilder::new().add_output(address(1), 5).unwrap();
    assert_eq!(none.build().unwrap_err(), DPCError::InvalidNumberOfInputs(0, 2));
    let mut three = OfflineTransactionBuilder::new().add_output(address(1), 5).unwrap();
    for i in 0..3 {
        three = three.add_input(key("k"), record(i, "r")).unwrap();
    }
    assert_eq!(three.build().unwrap_err(), DPCError::InvalidNumberOfInputs(3, 2));
}

#[test]
fn build_wants_one_or_two_outputs() {
    let none = OfflineTransactionBuilder::new().add_input(key("k"), record(1, "r")).unwrap();
    assert_eq!(none.build().unwrap_err(), DPCError::MissingOutputs);
    let mut three = OfflineTransactionBuilder::new().add_input(key("k"), record(1, "r")).unwrap();
    for i in 0..3 {
        three = three.add_output(address(i), i).unwrap();
    }
    assert_eq!(three.build().unwrap_err(), DPCError::InvalidNumberOfInputs(3, 2));
}

#[test]
fn build_fills_up_with_dummy_records() {
    let builder = OfflineTransactionBuilder::new()
        .add_input(key("alice"), record(1, "coin"))
        .unwrap()
        .add_output(address(2), 40)
        .unwrap()
        .network_id(0);
    let plan = builder.build().unwrap();
    let keys: Vec<&str> = plan.old_account_private_keys.iter().map(|k| k.encoded.as_str()).collect();
    assert_eq!(keys, vec!["alice", "alice"]);
    assert_eq!(plan.old_records.len(), 2);
    assert_eq!(plan.old_records[0].as_ref().unwrap().encoded, "coin");
    assert_eq!(plan.old_records[0].as_ref().unwrap().owner, address(1));
    assert!(plan.old_records[1].is_none());
    assert_eq!(plan.new_record_owners, vec![address(2), address(2)]);
    assert_eq!(plan.new_is_dummy_flags, vec![false, true]);
    assert_eq!(plan.new_values, vec![40, 0]);
    assert_eq!(plan.network_id, 0);
}

#[test]
fn build_keeps_a_full_transaction_as_it_is() {
    let builder = OfflineTransactionBuilder::new()
        .add_input(key("alice"), record(1, "coin"))
        .unwrap()
        .add_input(key("bob"), record(3, "note"))
        .unwrap()
        .add_output(address(2), 40)
        .unwrap()
        .add_output(address(4), 2)
        .unwrap();
    let plan = builder.build().unwrap();
    let keys: Vec<&str> = plan.old_account_private_keys.iter().map(|k| k.encoded.as_str()).collect();
    assert_eq!(keys, vec!["alice", "bob"]);
    let records: Vec<&str> =
        plan.old_records.iter().map(|r| r.as_ref().unwrap().encoded.as_str()).collect();
    assert_eq!(records, vec!["coin", "note"]);
    assert_eq!(plan.new_record_owners, vec![address(2), address(4)]);
    assert_eq!(plan.new_is_dummy_flags, vec![false, false]);
    assert_eq!(plan.new_values, vec![40, 2]);
    assert_eq!(plan.network_id, 1);
}

#[test]
fn offline_transaction_is_written_in_lower_case_hex() {
    let transaction = OfflineTransaction { execute_context: vec![1, 2, 3, 15, 16, 0xab, 0xff] };
    assert_eq!(transaction.to_string(), "0102030f10abff");
    assert_eq!(OfflineTransaction { execute_context: vec![] }.to_string(), "");
}

#[test]
fn offline_transaction_is_read_from_hex_of_either_case() {
    let read = OfflineTransaction::from_str("48656c6C6F20774F").unwrap();
    assert_eq!(read.execute_context, vec![0x48, 0x65, 0x6c, 0x6c, 0x6f, 0x20, 0x77, 0x4f]);
    assert_eq!(OfflineTransaction::from_str("").unwrap().execute_context, Vec::<u8>::new());
}

#[test]
fn offline_transaction_round_trips() {
    let bytes: Vec<u8> = (0..=255).collect();
    let text = OfflineTransaction { execute_context: bytes.clone() }.to_string();
    assert_eq!(text.len(), 512);
    assert_eq!(OfflineTransaction::from_str(&text).unwrap().execute_context, bytes);
}

#[test]
fn odd_length_comes_before_a_bad_digit() {
    let odd = OfflineTransaction::from_str("123").unwrap_err();
    assert_eq!(odd, DPCError::FromHexError(HexFault::OddLength));
    let odd_and_bad = OfflineTransaction::from_str("zz1").unwrap_err();
    assert_eq!(odd_and_bad, DPCError::FromHexError(HexFault::OddLength));
}

#[test]
fn the_first_bad_digit_is_named() {
    let bad = OfflineTransaction::from_str("0g").unwrap_err();
    assert_eq!(bad, DPCError::FromHexError(HexFault::InvalidHexCharacter { c: 'g', index: 1 }));
    let bad = OfflineTransaction::from_str("00zy").unwrap_err();
    assert_eq!(bad, DPCError::FromHexError(HexFault::InvalidHexCharacter { c: 'z', index: 2 }));
    let bad = OfflineTransaction::from_str("0x12").unwrap_err();
    assert_eq!(bad, DPCError::FromHexError(HexFault::InvalidHexCharacter { c: 'x', index: 1 }));
}
