use lending_sdk::get_size_of_compressed_u16;
use lending_sdk::get_size_of_transaction;
use lending_sdk::AccountMeta;
use lending_sdk::Address;
use lending_sdk::Instruction;
use lending_sdk::SolendError;

fn addr(fill: u8) -> Address {
    Address::from_bytes(vec![fill; 32]).unwrap()
}

fn simple_instruction(program_fill: u8) -> Instruction {
    Instruction { program_id: addr(program_fill), accounts: vec![], data: vec![] }
}

#[test]
fn compress_u16() {
    let a = 0u16;
    let b = 128u16;
    let c = 16384u16;

    assert_eq!(get_size_of_compressed_u16(&a), 1);
    assert_eq!(get_size_of_compressed_u16(&b), 2);
    assert_eq!(get_size_of_compressed_u16(&c), 3);
}

#[test]
fn compress_u16_boundaries() {
    assert_eq!(get_size_of_compressed_u16(&0u16), 1);
    assert_eq!(get_size_of_compressed_u16(&127u16), 1);
    assert_eq!(get_size_of_compressed_u16(&128u16), 2);
    assert_eq!(get_size_of_compressed_u16(&16383u16), 2);
    assert_eq!(get_size_of_compressed_u16(&16384u16), 3);
    assert_eq!(get_size_of_compressed_u16(&65535u16), 3);
}

#[test]
fn it_works() {
    let result = get_size_of_transaction(vec![simple_instruction(1)], false, None).unwrap();
    assert_eq!(result, 73);
}

#[test]
fn transaction_size_computation() {
    let result = get_size_of_transaction(vec![simple_instruction(1)], false, None).unwrap();
    assert_eq!(result, 73);
}

#[test]
fn empty_transaction_is_header_only() {
    let result = get_size_of_transaction(vec![], false, None).unwrap();
    assert_eq!(result, 38);
}

#[test]
fn repeated_program_counted_once() {
    let result =
        get_size_of_transaction(vec![simple_instruction(1), simple_instruction(1)], false, None)
            .unwrap();
    // One distinct account (the program), two instructions of 3 bytes each.
    assert_eq!(result, 76);
}

#[test]
fn instruction_order_does_not_change_size() {
    let ix1 = Instruction {
        program_id: addr(1),
        accounts: vec![
            AccountMeta { pubkey: addr(2), is_signer: true, is_writable: true },
            AccountMeta { pubkey: addr(3), is_signer: false, is_writable: false },
        ],
        data: vec![9; 17],
    };
    let ix2 = Instruction {
        program_id: addr(4),
        accounts: vec![AccountMeta { pubkey: addr(5), is_signer: false, is_writable: true }],
        data: vec![7; 3],
    };
    let ix1_again = Instruction {
        program_id: addr(1),
        accounts: vec![
            AccountMeta { pubkey: addr(2), is_signer: true, is_writable: true },
            AccountMeta { pubkey: addr(3), is_signer: false, is_writable: false },
        ],
        data: vec![9; 17],
    };
    let ix2_again = Instruction {
        program_id: addr(4),
        accounts: vec![AccountMeta { pubkey: addr(5), is_signer: false, is_writable: true }],
        data: vec![7; 3],
    };
    let forward = get_size_of_transaction(vec![ix1, ix2], false, None).unwrap();
    let backward = get_size_of_transaction(vec![ix2_again, ix1_again], false, None).unwrap();
    assert_eq!(forward, backward);
}

#[test]
fn versioned_with_lookup_table() {
    let ix = Instruction {
        program_id: addr(1),
        accounts: vec![
            AccountMeta { pubkey: addr(2), is_signer: true, is_writable: true },
            AccountMeta { pubkey: addr(3), is_signer: false, is_writable: false },
        ],
        data: vec![0; 2],
    };
    // Accounts {1, 2, 3}; the lookup table resolves 3; program 1 and
    // signer 2 stay inline, so one account moves to the lookup table:
    // 1 + 64 + 3 + 1 + 64 + 32 + 1 + (1 + 1 + 2 + 1 + 2) + 2 + 32 + 2 + 1 = 210.
    let size = get_size_of_transaction(vec![ix], true, Some(vec![addr(3)])).unwrap();
    assert_eq!(size, 210);
}

#[test]
fn lookup_table_never_removes_signers_or_programs() {
    let ix = Instruction {
        program_id: addr(1),
        accounts: vec![AccountMeta { pubkey: addr(2), is_signer: true, is_writable: true }],
        data: vec![],
    };
    // The table lists both the program and the signer; neither may leave
    // the inline list, so no account is looked up and the versioned
    // transaction only gains its fixed 2 bytes.
    let size = get_size_of_transaction(vec![ix], true, Some(vec![addr(1), addr(2)])).unwrap();
    let unversioned_ix = Instruction {
        program_id: addr(1),
        accounts: vec![AccountMeta { pubkey: addr(2), is_signer: true, is_writable: true }],
        data: vec![],
    };
    let base = get_size_of_transaction(vec![unversioned_ix], false, None).unwrap();
    assert_eq!(size, base + 2);
}

#[test]
fn oversized_instruction_data_overflows() {
    let ix = Instruction { program_id: addr(1), accounts: vec![], data: vec![0; 65536] };
    let r = get_size_of_transaction(vec![ix], false, None);
    assert!(matches!(r, Err(SolendError::ConversionWouldOverflow)));
}

#[test]
fn oversized_account_list_overflows() {
    let mut accounts = Vec::new();
    for _ in 0..65536 {
        accounts.push(AccountMeta { pubkey: addr(2), is_signer: false, is_writable: false });
    }
    let ix = Instruction { program_id: addr(1), accounts, data: vec![] };
    let r = get_size_of_transaction(vec![ix], false, None);
    assert!(matches!(r, Err(SolendError::ConversionWouldOverflow)));
}

#[test]
fn error_messages() {
    assert_eq!(
        SolendError::ConversionWouldOverflow.message(),
        "This attempted conversion would overflow!"
    );
    assert_eq!(SolendError::FailedToParse.message(), "Could not parse the given data");
}

#[test]
fn estimate_size_uses_taxonomy_error() {
    assert_eq!(lending_sdk::estimate_size(vec![], false, None).unwrap(), 38);
    let ix = Instruction { program_id: addr(1), accounts: vec![], data: vec![0; 70000] };
    assert!(matches!(
        lending_sdk::estimate_size(vec![ix], false, None),
        Err(lending_sdk::DecodeError::SizeOverflow)
    ));
}
