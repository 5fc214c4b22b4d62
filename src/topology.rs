//! Channel tables: which worker id relays which pair of channels.
use vstd::prelude::*;

verus! {

/// The pair of channels that one worker relays between.
pub struct ChannelMapping {
    pub id: i32,
    pub input_channel: String,
    pub output_channel: String,
}

/// Why a worker refuses to start. Both are configuration errors and are
/// never retried.
#[derive(PartialEq, Eq, Structural, Debug, Clone, Copy)]
pub enum StartupError {
    /// The start argument was missing or could not be read as an integer.
    MissingId,
    /// The id lies outside the range of ids that the table owns.
    OutOfRange(i32),
}

/// A channel table: row `i` belongs to worker id `offset + i`.
///
/// Tables that share one store own disjoint id ranges, so that an id never
/// resolves in more than one of them.
pub struct Topology {
    pub offset: i32,
    pub channels: Vec<(String, String)>,
}

impl Topology {
    /// Ids are non-negative and the whole range fits in an `i32`.
    pub open spec fn wf(&self) -> bool {
        0 <= self.offset && self.offset + self.channels@.len() <= i32::MAX
    }

    pub open spec fn len_spec(&self) -> int {
        self.channels@.len() as int
    }

    /// The id lies in the range of this table.
    pub open spec fn owns(&self, id: int) -> bool {
        self.offset <= id < self.offset + self.channels@.len()
    }

    pub open spec fn input_of(&self, id: int) -> Seq<char> {
        self.channels@[id - self.offset].0@
    }

    pub open spec fn output_of(&self, id: int) -> Seq<char> {
        self.channels@[id - self.offset].1@
    }

    /// The rows of the table as pairs of channel names.
    pub open spec fn pairs(&self) -> Seq<(Seq<char>, Seq<char>)> {
        self.channels@.map_values(|p: (String, String)| (p.0@, p.1@))
    }

    /// Builds a table whose first row has id `offset`; `None` where an id
    /// would be negative or would not fit in an `i32`.
    pub fn new(offset: i32, channels: Vec<(String, String)>) -> (r: Option<Topology>)
        ensures
            r is Some <==> (0 <= offset && offset + channels@.len() <= i32::MAX),
            r matches Some(t) ==> t.offset == offset && t.channels@ == channels@,
    {
        if offset < 0 || channels.len() > (i32::MAX - offset) as usize {
            None
        } else {
            Some(Topology { offset, channels })
        }
    }

    pub fn len(&self) -> (r: usize)
        ensures
            r == self.channels@.len(),
    {
        self.channels.len()
    }

    /// Resolves a worker id to its row.
    pub fn resolve(&self, id: i32) -> (r: Result<ChannelMapping, StartupError>)
        requires
            self.wf(),
        ensures
            r is Ok <==> self.owns(id as int),
            r matches Ok(m) ==> m.id == id && m.input_channel@ == self.input_of(id as int)
                && m.output_channel@ == self.output_of(id as int),
            r matches Err(e) ==> e == StartupError::OutOfRange(id),
    {
        if id < self.offset || (id - self.offset) as usize >= self.channels.len() {
            Err(StartupError::OutOfRange(id))
        } else {
            let i = (id - self.offset) as usize;
            let input_channel = self.channels[i].0.clone();
            let output_channel = self.channels[i].1.clone();
            Ok(ChannelMapping { id, input_channel, output_channel })
        }
    }

    /// Checks the start argument of a worker: it must be present and owned
    /// by this table.
    pub fn startup(&self, arg: Option<i32>) -> (r: Result<ChannelMapping, StartupError>)
        requires
            self.wf(),
        ensures
            arg is None ==> r == Err::<ChannelMapping, StartupError>(StartupError::MissingId),
            arg matches Some(id) ==> (r is Ok <==> self.owns(id as int)),
            arg matches Some(id) ==> (r matches Err(e) ==> e == StartupError::OutOfRange(id)),
            r matches Ok(m) ==> arg == Some(m.id) && m.input_channel@ == self.input_of(
                m.id as int,
            ) && m.output_channel@ == self.output_of(m.id as int),
    {
        match arg {
            None => Err(StartupError::MissingId),
            Some(id) => self.resolve(id),
        }
    }

    /// The ids of the workers that the table asks for, one per row, in
    /// row order.
    pub fn worker_ids(&self) -> (r: Vec<i32>)
        requires
            self.wf(),
        ensures
            r@.len() == self.channels@.len(),
            forall|i: int| 0 <= i < r@.len() ==> r@[i] == self.offset + i,
            forall|i: int| 0 <= i < r@.len() ==> self.owns(r@[i] as int),
    {
        let mut r: Vec<i32> = Vec::new();
        let n = self.channels.len();
        let mut i: usize = 0;
        while i < n
            invariant
                self.wf(),
                n == self.channels@.len(),
                i <= n,
                r@.len() == i,
                forall|j: int| 0 <= j < i ==> r@[j] == self.offset + j,
            decreases n - i,
        {
            r.push(self.offset + i as i32);
            i = i + 1;
        }
        r
    }
}

/// First worker id of the stock namespace.
pub const STOCK_ID_OFFSET: i32 = 0;

/// The rows of the stock table, as (input, output) channel names.
pub open spec fn stock_pairs() -> Seq<(Seq<char>, Seq<char>)> {
    seq![
        ("price_changes"@, "stock_price_update_channel"@),
        ("product_changes"@, "stock_product_update_channel"@),
        ("checkout"@, "stock_checkout_update_channel"@),
        ("payment_confirmed"@, "stock_payment_confirmed_channel"@),
        ("payment_failed"@, "stock_payment_failed_channel"@),
    ]
}

/// The stock namespace's table.
pub fn stock_topology() -> (r: Topology)
    ensures
        r.wf(),
        r.offset == STOCK_ID_OFFSET,
        r.pairs() == stock_pairs(),
{
    let mut channels: Vec<(String, String)> = Vec::new();
    channels.push((String::from_str("price_changes"), String::from_str("stock_price_update_channel")));
    channels.push((String::from_str("product_changes"), String::from_str("stock_product_update_channel")));
    channels.push((String::from_str("checkout"), String::from_str("stock_checkout_update_channel")));
    channels.push((String::from_str("payment_confirmed"), String::from_str("stock_payment_confirmed_channel")));
    channels.push((String::from_str("payment_failed"), String::from_str("stock_payment_failed_channel")));
    let r = Topology { offset: STOCK_ID_OFFSET, channels };
    assert(r.pairs() =~= stock_pairs());
    r
}

/// First worker id of the seller namespace.
pub const SELLER_ID_OFFSET: i32 = 7;

/// The rows of the seller table, as (input, output) channel names.
pub open spec fn seller_pairs() -> Seq<(Seq<char>, Seq<char>)> {
    seq![
        ("invoice_issued"@, "seller_invoice_issued_channel"@),
        ("shipment"@, "seller_shipment_channel"@),
        ("delivery"@, "seller_delivery_channel"@),
        ("payment_failed"@, "seller_payment_failed_channel"@),
    ]
}

/// The seller namespace's table.
pub fn seller_topology() -> (r: Topology)
    ensures
        r.wf(),
        r.offset == SELLER_ID_OFFSET,
        r.pairs() == seller_pairs(),
{
    let mut channels: Vec<(String, String)> = Vec::new();
    channels.push((String::from_str("invoice_issued"), String::from_str("seller_invoice_issued_channel")));
    channels.push((String::from_str("shipment"), String::from_str("seller_shipment_channel")));
    channels.push((String::from_str("delivery"), String::from_str("seller_delivery_channel")));
    channels.push((String::from_str("payment_failed"), String::from_str("seller_payment_failed_channel")));
    let r = Topology { offset: SELLER_ID_OFFSET, channels };
    assert(r.pairs() =~= seller_pairs());
    r
}

/// First worker id of the order namespace.
pub const ORDER_ID_OFFSET: i32 = 15;

/// The rows of the order table, as (input, output) channel names.
pub open spec fn order_pairs() -> Seq<(Seq<char>, Seq<char>)> {
    seq![
        ("stock_confirmed"@, "order_stock_confirmed_channel"@),
        ("shipment"@, "order_shipment_channel"@),
    ]
}

/// The order namespace's table.
pub fn order_topology() -> (r: Topology)
    ensures
        r.wf(),
        r.offset == ORDER_ID_OFFSET,
        r.pairs() == order_pairs(),
{
    let mut channels: Vec<(String, String)> = Vec::new();
    channels.push((String::from_str("stock_confirmed"), String::from_str("order_stock_confirmed_channel")));
    channels.push((String::from_str("shipment"), String::from_str("order_shipment_channel")));
    let r = Topology { offset: ORDER_ID_OFFSET, channels };
    assert(r.pairs() =~= order_pairs());
    r
}

/// Tables whose id ranges are disjoint never both own an id: a worker id
/// resolves in one of them at most, so no worker can take another table's
/// mapping.
pub proof fn lemma_disjoint_tables_never_cross_resolve(a: Topology, b: Topology, id: int)
    requires
        a.offset + a.len_spec() <= b.offset || b.offset + b.len_spec() <= a.offset,
    ensures
        !(a.owns(id) && b.owns(id)),
{
}

/// The stock, seller and order tables own disjoint id ranges, so no id
/// resolves in two of them.
pub proof fn lemma_standard_tables_disjoint(stock: Topology, seller: Topology, order: Topology, id: int)
    requires
        stock.offset == STOCK_ID_OFFSET && stock.pairs() == stock_pairs(),
        seller.offset == SELLER_ID_OFFSET && seller.pairs() == seller_pairs(),
        order.offset == ORDER_ID_OFFSET && order.pairs() == order_pairs(),
    ensures
        !(stock.owns(id) && seller.owns(id)),
        !(stock.owns(id) && order.owns(id)),
        !(seller.owns(id) && order.owns(id)),
{
    assert(stock.channels@.len() == stock.pairs().len());
    assert(seller.channels@.len() == seller.pairs().len());
    assert(order.channels@.len() == order.pairs().len());
    lemma_disjoint_tables_never_cross_resolve(stock, seller, id);
    lemma_disjoint_tables_never_cross_resolve(stock, order, id);
    lemma_disjoint_tables_never_cross_resolve(seller, order, id);
}

} // verus!
