use burnchains::address::{
    AddressHashMode, Hash160, PoxAddress, PoxAddressType32, StacksAddress,
};
use burnchains::bitcoin::{BitcoinTransaction, BitcoinTxInput, BitcoinTxOutput};
use burnchains::{BurnchainRecipient, BurnchainSigner, BurnchainTransaction, Txid};

fn standard() -> PoxAddress {
    PoxAddress::Standard(
        StacksAddress {
            version: 22,
            bytes: Hash160([9; 20]),
        },
        Some(AddressHashMode::SerializeP2PKH),
    )
}

fn taproot() -> PoxAddress {
    PoxAddress::Addr32(true, PoxAddressType32::P2TR, [3; 32])
}

fn transaction() -> BurnchainTransaction {
    BurnchainTransaction::Bitcoin(BitcoinTransaction {
        txid: Txid([1; 32]),
        vtxindex: 12,
        opcode: b'[',
        data: vec![4, 5, 6],
        data_amt: 77,
        inputs: vec![
            BitcoinTxInput {
                tx_ref: (Txid([7; 32]), 0),
            },
            BitcoinTxInput {
                tx_ref: (Txid([8; 32]), 3),
            },
        ],
        outputs: vec![
            BitcoinTxOutput {
                address: Some(standard()),
                units: 10,
            },
            BitcoinTxOutput {
                address: None,
                units: 20,
            },
            BitcoinTxOutput {
                address: Some(taproot()),
                units: 30,
            },
        ],
    })
}

#[test]
fn plain_fields() {
    let tx = transaction();
    assert_eq!(tx.txid(), Txid([1; 32]));
    assert_eq!(tx.vtxindex(), 12);
    assert_eq!(tx.opcode(), b'[');
    assert_eq!(tx.data(), vec![4, 5, 6]);
    assert_eq!(tx.get_burn_amount(), 77);
    assert_eq!(tx.num_signers(), 2);
    assert_eq!(tx.num_recipients(), 3);
}

#[test]
fn spent_outputs() {
    let tx = transaction();
    assert_eq!(tx.get_input_tx_ref(0), Some(&(Txid([7; 32]), 0)));
    assert_eq!(tx.get_input_tx_ref(1), Some(&(Txid([8; 32]), 3)));
    assert_eq!(tx.get_input_tx_ref(2), None);
    assert_eq!(tx.get_input_tx_ref(usize::MAX), None);
}

#[test]
fn recipients_in_order_of_outputs() {
    let tx = transaction();
    assert_eq!(
        tx.get_recipients(),
        vec![
            Some(BurnchainRecipient {
                address: standard(),
                amount: 10
            }),
            None,
            Some(BurnchainRecipient {
                address: taproot(),
                amount: 30
            }),
        ]
    );
    assert_eq!(tx.get_recipients().len(), tx.num_recipients());
}

#[test]
fn signer_text() {
    let signer = BurnchainSigner(format!("bitcoin:{}", 7));
    assert_eq!(signer.to_string(), "bitcoin:7");
}
