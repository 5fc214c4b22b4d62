use notify_relay::marks::{MarkTable, TransactionMark};

#[test]
fn mark_channels() {
    assert_eq!(MarkTable::Checkout.mark_channel(), "checkoutmark");
    assert_eq!(MarkTable::PriceUpdate.mark_channel(), "priceupdatemark");
    assert_eq!(MarkTable::ProductUpdate.mark_channel(), "productupdatemark");
}

#[test]
fn insert_statements() {
    assert_eq!(
        MarkTable::Checkout.insert_statement(),
        "INSERT INTO CHECKOUT (stream_id, instance_id, transaction_type, customer_id, mark_status, db) VALUES ($1, $2, $3, $4, $5, $6);"
    );
    assert_eq!(
        MarkTable::PriceUpdate.insert_statement(),
        "INSERT INTO PRICEUPDATE (stream_id, instance_id, transaction_type, seller_id, mark_status, db) VALUES ($1, $2, $3, $4, $5, $6);"
    );
}

#[test]
fn create_table_statement() {
    assert_eq!(
        MarkTable::ProductUpdate.create_table_statement(),
        "CREATE TABLE IF NOT EXISTS PRODUCTUPDATE (stream_id TEXT NOT NULL, instance_id TEXT NOT NULL, transaction_type TEXT NOT NULL, seller_id TEXT NOT NULL, mark_status TEXT NOT NULL, db TEXT NOT NULL);"
    );
}

#[test]
fn trigger_statement_publishes_on_mark_channel() {
    let s = MarkTable::Checkout.trigger_statement();
    assert!(s.starts_with("CREATE OR REPLACE FUNCTION notify_insert_checkout() RETURNS TRIGGER AS $$"));
    assert!(s.contains("'actorId', NEW.customer_id::INT"));
    assert!(s.contains("EXECUTE format('NOTIFY checkoutmark, %L', payload);"));
    assert!(s.ends_with("CREATE TRIGGER checkout_trigger AFTER INSERT ON CHECKOUT FOR EACH ROW EXECUTE FUNCTION notify_insert_checkout();"));
}

#[test]
fn insert_args_follow_column_order() {
    let m = TransactionMark {
        stream_id: "s1".to_string(),
        instance_id: "i1".to_string(),
        transaction_type: "CHECKOUT".to_string(),
        actor_id: "42".to_string(),
        mark_status: "SUCCESS".to_string(),
        origin: "order".to_string(),
    };
    assert_eq!(m.insert_args(), vec!["s1", "i1", "CHECKOUT", "42", "SUCCESS", "order"]);
}
