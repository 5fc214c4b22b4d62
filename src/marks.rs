//! The audit tables of transaction marks, and the statements that create,
//! fill and watch them. A trigger on each table publishes every inserted
//! row on a channel named after the table.
use vstd::prelude::*;

verus! {

/// An append-only table of transaction marks.
#[derive(PartialEq, Eq, Structural, Debug, Clone, Copy)]
pub enum MarkTable {
    /// Checkouts, by customer.
    Checkout,
    /// Price updates, by seller.
    PriceUpdate,
    /// Product updates, by seller.
    ProductUpdate,
}

/// One domain event, as a row of a mark table.
pub struct TransactionMark {
    pub stream_id: String,
    pub instance_id: String,
    pub transaction_type: String,
    pub actor_id: String,
    pub mark_status: String,
    pub origin: String,
}

pub open spec fn table_name(t: MarkTable) -> Seq<char> {
    match t {
        MarkTable::Checkout => "CHECKOUT"@,
        MarkTable::PriceUpdate => "PRICEUPDATE"@,
        MarkTable::ProductUpdate => "PRODUCTUPDATE"@,
    }
}

/// The table's name in lower case, which names its trigger objects.
pub open spec fn base_name(t: MarkTable) -> Seq<char> {
    match t {
        MarkTable::Checkout => "checkout"@,
        MarkTable::PriceUpdate => "priceupdate"@,
        MarkTable::ProductUpdate => "productupdate"@,
    }
}

/// The column that holds the actor of the event.
pub open spec fn actor_column(t: MarkTable) -> Seq<char> {
    match t {
        MarkTable::Checkout => "customer_id"@,
        MarkTable::PriceUpdate => "seller_id"@,
        MarkTable::ProductUpdate => "seller_id"@,
    }
}

/// The channel on which the table's trigger publishes each new row.
pub open spec fn mark_channel(t: MarkTable) -> Seq<char> {
    base_name(t) + "mark"@
}

pub open spec fn create_table_sql(t: MarkTable) -> Seq<char> {
    "CREATE TABLE IF NOT EXISTS "@ + table_name(t)
        + " (stream_id TEXT NOT NULL, instance_id TEXT NOT NULL, transaction_type TEXT NOT NULL, "@
        + actor_column(t) + " TEXT NOT NULL, mark_status TEXT NOT NULL, db TEXT NOT NULL);"@
}

/// Inserts one mark; its six parameters follow the order of
/// `TransactionMark::insert_args`.
pub open spec fn insert_sql(t: MarkTable) -> Seq<char> {
    "INSERT INTO "@ + table_name(t) + " (stream_id, instance_id, transaction_type, "@
        + actor_column(t) + ", mark_status, db) VALUES ($1, $2, $3, $4, $5, $6);"@
}

/// Creates the trigger that publishes each new row, as a flat JSON object,
/// on `mark_channel(t)`.
pub open spec fn trigger_sql(t: MarkTable) -> Seq<char> {
    "CREATE OR REPLACE FUNCTION notify_insert_"@ + base_name(t)
        + "() RETURNS TRIGGER AS $$ DECLARE payload TEXT; BEGIN payload := json_build_object('tid', NEW.instance_id, 'type', NEW.transaction_type::TEXT, 'actorId', NEW."@
        + actor_column(t)
        + "::INT, 'status', NEW.mark_status, 'source', NEW.db)::text; EXECUTE format('NOTIFY "@
        + mark_channel(t) + ", %L', payload); RETURN NEW; END; $$ LANGUAGE plpgsql; CREATE TRIGGER "@
        + base_name(t) + "_trigger AFTER INSERT ON "@ + table_name(t)
        + " FOR EACH ROW EXECUTE FUNCTION notify_insert_"@ + base_name(t) + "();"@
}

impl MarkTable {
    pub fn name(&self) -> (r: &'static str)
        ensures
            r@ == table_name(*self),
    {
        match self {
            MarkTable::Checkout => "CHECKOUT",
            MarkTable::PriceUpdate => "PRICEUPDATE",
            MarkTable::ProductUpdate => "PRODUCTUPDATE",
        }
    }

    pub fn base_name(&self) -> (r: &'static str)
        ensures
            r@ == base_name(*self),
    {
        match self {
            MarkTable::Checkout => "checkout",
            MarkTable::PriceUpdate => "priceupdate",
            MarkTable::ProductUpdate => "productupdate",
        }
    }

    pub fn actor_column(&self) -> (r: &'static str)
        ensures
            r@ == actor_column(*self),
    {
        match self {
            MarkTable::Checkout => "customer_id",
            MarkTable::PriceUpdate => "seller_id",
            MarkTable::ProductUpdate => "seller_id",
        }
    }

    pub fn mark_channel(&self) -> (r: String)
        ensures
            r@ == mark_channel(*self),
    {
        String::from_str(self.base_name()).concat("mark")
    }

    pub fn create_table_statement(&self) -> (r: String)
        ensures
            r@ == create_table_sql(*self),
    {
        String::from_str("CREATE TABLE IF NOT EXISTS ").concat(self.name()).concat(
            " (stream_id TEXT NOT NULL, instance_id TEXT NOT NULL, transaction_type TEXT NOT NULL, ",
        ).concat(self.actor_column()).concat(
            " TEXT NOT NULL, mark_status TEXT NOT NULL, db TEXT NOT NULL);",
        )
    }

    pub fn insert_statement(&self) -> (r: String)
        ensures
            r@ == insert_sql(*self),
    {
        String::from_str("INSERT INTO ").concat(self.name()).concat(
            " (stream_id, instance_id, transaction_type, ",
        ).concat(self.actor_column()).concat(
            ", mark_status, db) VALUES ($1, $2, $3, $4, $5, $6);",
        )
    }

    pub fn trigger_statement(&self) -> (r: String)
        ensures
            r@ == trigger_sql(*self),
    {
        let channel = self.mark_channel();
        String::from_str("CREATE OR REPLACE FUNCTION notify_insert_").concat(
            self.base_name(),
        ).concat(
            "() RETURNS TRIGGER AS $$ DECLARE payload TEXT; BEGIN payload := json_build_object('tid', NEW.instance_id, 'type', NEW.transaction_type::TEXT, 'actorId', NEW.",
        ).concat(self.actor_column()).concat(
            "::INT, 'status', NEW.mark_status, 'source', NEW.db)::text; EXECUTE format('NOTIFY ",
        ).concat(channel.as_str()).concat(
            ", %L', payload); RETURN NEW; END; $$ LANGUAGE plpgsql; CREATE TRIGGER ",
        ).concat(self.base_name()).concat("_trigger AFTER INSERT ON ").concat(self.name()).concat(
            " FOR EACH ROW EXECUTE FUNCTION notify_insert_",
        ).concat(self.base_name()).concat("();")
    }
}

impl TransactionMark {
    /// The parameters of `insert_sql`, in its column order.
    pub fn insert_args(&self) -> (r: Vec<String>)
        ensures
            r@.map_values(|s: String| s@) == seq![
                self.stream_id@,
                self.instance_id@,
                self.transaction_type@,
                self.actor_id@,
                self.mark_status@,
                self.origin@,
            ],
    {
        let r = vec![
            self.stream_id.clone(),
            self.instance_id.clone(),
            self.transaction_type.clone(),
            self.actor_id.clone(),
            self.mark_status.clone(),
            self.origin.clone(),
        ];
        assert(r@.map_values(|s: String| s@) =~= seq![
            self.stream_id@,
            self.instance_id@,
            self.transaction_type@,
            self.actor_id@,
            self.mark_status@,
            self.origin@,
        ]);
        r
    }
}

} // verus!
