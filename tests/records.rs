use payments_engine::amount::{parse_amount, Amount};
use payments_engine::parse::{deserialize_transaction_type, transaction_type_from, ParseError};
use payments_engine::render::serialize_decimal;
use payments_engine::types::{Account, Transaction, TransactionType};

/// Reads the first record of a text with a header, as the input reader does.
fn first_transaction(input: &str) -> Transaction {
    let mut reader = csv::ReaderBuilder::new().trim(csv::Trim::All).from_reader(input.as_bytes());
    let record = reader.records().next().unwrap().unwrap();
    Transaction {
        client_id: record[1].parse().unwrap(),
        tx_id: record[2].parse().unwrap(),
        tx_type: deserialize_transaction_type(&record[0], &record[3]).unwrap(),
    }
}

/// Writes accounts with a header, as the output writer does.
fn write_accounts(accounts: &[Account]) -> String {
    let mut writer = csv::Writer::from_writer(vec![]);
    writer.write_record(["client", "available", "held", "total", "locked"]).unwrap();
    for a in accounts {
        writer
            .write_record([
                a.client_id.to_string(),
                serialize_decimal(a.available),
                serialize_decimal(a.held),
                serialize_decimal(a.total),
                a.locked.to_string(),
            ])
            .unwrap();
    }
    String::from_utf8(writer.into_inner().unwrap()).unwrap()
}

#[test]
fn deserialize_deposit() {
    let input = "type,client,tx,amount\ndeposit,10,20,30.123\n";
    let tx = first_transaction(input);
    assert_eq!(tx, Transaction {
        client_id: 10,
        tx_id: 20,
        tx_type: TransactionType::Deposit(Amount::from_units(30_1230)),
    });
}

#[test]
fn deserialize_withdrawal() {
    let input = "type,client,tx,amount\nwithdrawal,10,20,30.123\n";
    let tx = first_transaction(input);
    assert_eq!(tx, Transaction {
        client_id: 10,
        tx_id: 20,
        tx_type: TransactionType::Withdrawal(Amount::from_units(30_1230)),
    });
}

#[test]
fn deserialize_dispute() {
    let input = "type,client,tx,amount\ndispute,10,20,\n";
    let tx = first_transaction(input);
    assert_eq!(tx, Transaction { client_id: 10, tx_id: 20, tx_type: TransactionType::Dispute });
}

#[test]
fn deserialize_resolve() {
    let input = "type,client,tx,amount\nresolve,10,20,\n";
    let tx = first_transaction(input);
    assert_eq!(tx, Transaction { client_id: 10, tx_id: 20, tx_type: TransactionType::Resolve });
}

#[test]
fn deserialize_chargeback() {
    let input = "type,client,tx,amount\nchargeback,10,20,\n";
    let tx = first_transaction(input);
    assert_eq!(tx, Transaction { client_id: 10, tx_id: 20, tx_type: TransactionType::Chargeback });
}

#[test]
fn serialize_account() {
    let account = Account::new(1);
    let output = write_accounts(&[account]);
    assert_eq!(output, "client,available,held,total,locked\n1,0.0,0.0,0.0,false\n");
}

#[test]
fn serialize_account_with_scale() {
    let mut account = Account::new(1);
    account.available = parse_amount("0.123456789").unwrap();
    account.locked = true;
    let output = write_accounts(&[account]);
    assert_eq!(output, "client,available,held,total,locked\n1,0.1235,0.0,0.0,true\n");
}

#[test]
fn deserialize_trims_fields() {
    let input = "type, client, tx, amount\n deposit , 1 , 2 , 1.5 \n";
    let tx = first_transaction(input);
    assert_eq!(tx.tx_type, TransactionType::Deposit(Amount::from_units(1_5000)));
}

#[test]
fn unknown_type_is_refused() {
    assert_eq!(deserialize_transaction_type("Deposit", "1.0"), Err(ParseError::UnknownType));
    assert_eq!(deserialize_transaction_type("transfer", ""), Err(ParseError::UnknownType));
    assert_eq!(deserialize_transaction_type("", ""), Err(ParseError::UnknownType));
}

#[test]
fn malformed_amount_is_refused() {
    assert_eq!(deserialize_transaction_type("deposit", ""), Err(ParseError::InvalidAmount));
    assert_eq!(deserialize_transaction_type("withdrawal", "ten"), Err(ParseError::InvalidAmount));
    assert_eq!(deserialize_transaction_type("deposit", "-1.5"), Err(ParseError::InvalidAmount));
}

#[test]
fn dispute_ignores_amount_field() {
    assert_eq!(deserialize_transaction_type("dispute", "junk"), Ok(TransactionType::Dispute));
}

#[test]
fn kind_from_parsed_amount() {
    let a = Amount::from_units(42);
    assert_eq!(transaction_type_from("deposit", Some(a)), Ok(TransactionType::Deposit(a)));
    assert_eq!(transaction_type_from("withdrawal", None), Err(ParseError::InvalidAmount));
    assert_eq!(transaction_type_from("resolve", None), Ok(TransactionType::Resolve));
    assert_eq!(
        transaction_type_from("deposit", Some(Amount::from_units(-1))),
        Err(ParseError::InvalidAmount)
    );
}

#[test]
fn amounts_round_half_to_even() {
    assert_eq!(parse_amount("0.00005"), Some(Amount::from_units(0)));
    assert_eq!(parse_amount("0.00015"), Some(Amount::from_units(2)));
    assert_eq!(parse_amount("1.23456"), Some(Amount::from_units(1_2346)));
    assert_eq!(parse_amount("-1.23455"), Some(Amount::from_units(-1_2346)));
    assert_eq!(parse_amount("7"), Some(Amount::from_units(7_0000)));
    assert_eq!(parse_amount("0.1"), Some(Amount::from_units(1000)));
    assert_eq!(parse_amount("1.2.3"), None);
}

#[test]
fn largest_decimal_parses() {
    assert_eq!(
        parse_amount("79228162514264337593543950335"),
        Some(Amount::from_units(79228162514264337593543950335 * 10000))
    );
}

#[test]
fn amounts_render_with_one_fraction_digit_at_least() {
    assert_eq!(serialize_decimal(Amount::from_units(0)), "0.0");
    assert_eq!(serialize_decimal(Amount::from_units(10_0000)), "10.0");
    assert_eq!(serialize_decimal(Amount::from_units(1_5000)), "1.5");
    assert_eq!(serialize_decimal(Amount::from_units(123_4500)), "123.45");
    assert_eq!(serialize_decimal(Amount::from_units(1)), "0.0001");
    assert_eq!(serialize_decimal(Amount::from_units(-1_5000)), "-1.5");
    assert_eq!(serialize_decimal(Amount::from_units(1_0203)), "1.0203");
}

#[test]
fn extreme_amounts_render() {
    assert_eq!(
        serialize_decimal(Amount::from_units(i128::MIN)),
        "-17014118346046923173168730371588410.5728"
    );
    assert_eq!(
        serialize_decimal(Amount::from_units(i128::MAX)),
        "17014118346046923173168730371588410.5727"
    );
}
