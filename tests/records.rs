use esplora_tx::hex::{decode_hex, decode_stack, decode_witness, HexDecodeError};
use esplora_tx::model::{
    BlockTime, Outpoint, PrevOut, Transaction, Tx, TxOut, TxStatus, Vin, Vout,
};
use esplora_tx::tx::ConfinementError;

fn unconfirmed() -> TxStatus {
    TxStatus { confirmed: false, block_height: None, block_hash: None, block_time: None }
}

fn record(vin: Vec<Vin>, vout: Vec<Vout>, status: TxStatus) -> Tx {
    Tx {
        txid: [7u8; 32],
        version: 2,
        locktime: 0,
        vin,
        vout,
        size: 100,
        weight: 400,
        status,
        fee: 0,
    }
}

fn coinbase_input() -> Vin {
    Vin {
        txid: [0u8; 32],
        vout: 0xffff_ffff,
        prevout: None,
        scriptsig: decode_hex("00").unwrap(),
        witness: decode_witness(None).unwrap(),
        sequence: 0xffff_ffff,
        is_coinbase: true,
    }
}

fn spending_input(n: u8) -> Vin {
    Vin {
        txid: [n; 32],
        vout: n as u32,
        prevout: Some(PrevOut { value: 1000 * n as u64, scriptpubkey: vec![0x51, n] }),
        scriptsig: vec![n],
        witness: vec![vec![n, n], vec![]],
        sequence: 0xffff_fffd,
        is_coinbase: false,
    }
}

#[test]
fn empty_hex_decodes_to_nothing() {
    assert_eq!(decode_hex(""), Ok(vec![]));
}

#[test]
fn hex_with_non_digit_fails() {
    assert_eq!(decode_hex("0g"), Err(HexDecodeError::InvalidChar(b'g')));
    assert_eq!(decode_hex("zz00"), Err(HexDecodeError::InvalidChar(b'z')));
}

#[test]
fn hex_of_odd_length_fails() {
    assert_eq!(decode_hex("abc"), Err(HexDecodeError::OddLengthString(3)));
}

#[test]
fn hex_decodes_both_cases() {
    assert_eq!(decode_hex("00ff10"), Ok(vec![0x00, 0xff, 0x10]));
    assert_eq!(decode_hex("DeAD"), Ok(vec![0xde, 0xad]));
}

#[test]
fn absent_witness_is_empty_stack() {
    assert_eq!(decode_witness(None), Ok(Vec::<Vec<u8>>::new()));
}

#[test]
fn witness_decodes_each_element_in_order() {
    let list = vec!["0102".to_string(), "".to_string(), "ff".to_string()];
    assert_eq!(decode_witness(Some(list)), Ok(vec![vec![1, 2], vec![], vec![0xff]]));
}

#[test]
fn witness_fails_on_first_bad_element() {
    let list = vec!["01".to_string(), "0x".to_string(), "abc".to_string()];
    assert_eq!(decode_witness(Some(list)), Err(HexDecodeError::InvalidChar(b'x')));
    let list = vec!["abc".to_string()];
    assert_eq!(decode_stack(&list), Err(HexDecodeError::OddLengthString(3)));
}

#[test]
fn coinbase_record_builds() {
    let out = Vout { value: 5_000_000_000, scriptpubkey: decode_hex("51").unwrap() };
    let raw = record(vec![coinbase_input()], vec![out], unconfirmed());
    let t = raw.to_tx().unwrap();
    assert_eq!(t.inputs.len(), 1);
    assert!(t.inputs[0].witness.is_empty());
    assert_eq!(t.inputs[0].sig_script, vec![0x00]);
    assert_eq!(t.outputs.len(), 1);
    assert_eq!(t.outputs[0].value, 5_000_000_000);
    assert_eq!(t.outputs[0].script_pubkey, vec![0x51]);
    assert_eq!(raw.previous_outputs(), vec![None]);
}

#[test]
fn record_without_outputs_fails() {
    let raw = record(vec![coinbase_input()], vec![], unconfirmed());
    assert_eq!(raw.to_tx(), Err(ConfinementError::Undersize { len: 0, min_len: 1 }));
}

#[test]
fn record_without_inputs_fails() {
    let raw = record(vec![], vec![], unconfirmed());
    assert_eq!(raw.to_tx(), Err(ConfinementError::Undersize { len: 0, min_len: 1 }));
    let out = Vout { value: 1, scriptpubkey: vec![] };
    let raw = record(vec![], vec![out], unconfirmed());
    assert_eq!(raw.to_tx(), Err(ConfinementError::Undersize { len: 0, min_len: 1 }));
}

#[test]
fn build_keeps_order_and_fields() {
    let outs = vec![
        Vout { value: 10, scriptpubkey: vec![1] },
        Vout { value: 20, scriptpubkey: vec![2, 2] },
        Vout { value: 30, scriptpubkey: vec![] },
    ];
    let mut raw = record(vec![spending_input(1), spending_input(2)], outs, unconfirmed());
    raw.version = -5;
    raw.locktime = 800_000;
    let t: Transaction = raw.to_tx().unwrap();
    assert_eq!(t.version, -5);
    assert_eq!(t.lock_time, 800_000);
    assert_eq!(t.inputs.len(), 2);
    for (n, input) in t.inputs.iter().enumerate() {
        let k = n as u8 + 1;
        assert_eq!(input.prev_output, Outpoint { txid: [k; 32], vout: k as u32 });
        assert_eq!(input.sig_script, vec![k]);
        assert_eq!(input.sequence, 0xffff_fffd);
        assert_eq!(input.witness, vec![vec![k, k], vec![]]);
    }
    let values: Vec<u64> = t.outputs.iter().map(|o| o.value).collect();
    assert_eq!(values, vec![10, 20, 30]);
    assert_eq!(t.outputs[1].script_pubkey, vec![2, 2]);
}

#[test]
fn previous_outputs_align_with_inputs() {
    let out = Vout { value: 1, scriptpubkey: vec![] };
    let raw = record(
        vec![spending_input(3), coinbase_input(), spending_input(4)],
        vec![out],
        unconfirmed(),
    );
    let prev = raw.previous_outputs();
    assert_eq!(
        prev,
        vec![
            Some(TxOut { value: 3000, script_pubkey: vec![0x51, 3] }),
            None,
            Some(TxOut { value: 4000, script_pubkey: vec![0x51, 4] }),
        ]
    );
}

#[test]
fn pruned_input_builds_without_prevout() {
    let mut vin = spending_input(5);
    vin.prevout = None;
    let out = Vout { value: 1, scriptpubkey: vec![] };
    let raw = record(vec![vin], vec![out], unconfirmed());
    assert!(raw.to_tx().is_ok());
    assert_eq!(raw.previous_outputs(), vec![None]);
}

#[test]
fn unconfirmed_status_has_no_block_time() {
    let status = TxStatus {
        confirmed: false,
        block_height: Some(700_000),
        block_hash: None,
        block_time: Some(1_600_000_000),
    };
    let raw = record(vec![coinbase_input()], vec![], status);
    assert_eq!(raw.confirmation_time(), None);
}

#[test]
fn confirmed_status_gives_block_time() {
    let status = TxStatus {
        confirmed: true,
        block_height: Some(700_000),
        block_hash: None,
        block_time: Some(1_600_000_000),
    };
    let raw = record(vec![], vec![], status);
    assert_eq!(
        raw.confirmation_time(),
        Some(BlockTime { timestamp: 1_600_000_000, height: 700_000 })
    );
}

#[test]
fn partial_confirmation_has_no_block_time() {
    let missing_time = TxStatus {
        confirmed: true,
        block_height: Some(1),
        block_hash: Some([9u8; 32]),
        block_time: None,
    };
    assert_eq!(record(vec![], vec![], missing_time).confirmation_time(), None);
    let missing_height = TxStatus {
        confirmed: true,
        block_height: None,
        block_hash: Some([9u8; 32]),
        block_time: Some(5),
    };
    assert_eq!(record(vec![], vec![], missing_height).confirmation_time(), None);
}
