//! Non-motor device registry: CANopen `0x1018` identity to host device kind.
//!
//! Motors are the default kind. The table lists the other devices that can be
//! displayed, so that a node discovered on the bus is routed to its panel by its
//! identity alone. A device kind has one panel for all its product codes.

use vstd::prelude::*;

verus! {

/// HEXFELLOW vendor id, ASCII "hex".
pub const VENDOR_HEX: u32 = 0x0068_6578;

/// hex-meow vendor id, ASCII "hexm".
pub const VENDOR_HEXM: u32 = 0x6865_786D;

/// Generic-IMU product code, ASCII "IMU".
pub const PRODUCT_IMU: u32 = 0x0049_4D55;

/// Which panel a discovered device opens. `Motor` is the default for anything
/// the table does not list.
#[derive(Debug, Clone, Copy, PartialEq, Eq, Structural)]
pub enum DeviceKind {
    Motor,
    Imu,
}

impl DeviceKind {
    pub open spec fn text(self) -> Seq<char> {
        match self {
            DeviceKind::Motor => "motor"@,
            DeviceKind::Imu => "imu"@,
        }
    }

    /// Lowercase tag the frontend matches on (`"motor"`, `"imu"`).
    pub fn as_str(self) -> (s: &'static str)
        ensures
            s@ == self.text(),
    {
        match self {
            DeviceKind::Motor => "motor",
            DeviceKind::Imu => "imu",
        }
    }
}

/// One non-motor device family. `product_code == None` is a vendor-wide wildcard.
#[derive(Debug, Clone, Copy)]
pub struct KnownDevice {
    pub vendor_id: u32,
    pub product_code: Option<u32>,
    pub kind: DeviceKind,
    pub name: &'static str,
}

impl KnownDevice {
    /// The row covers this identity.
    pub open spec fn covers(self, vendor_id: u32, product_code: u32) -> bool {
        &&& self.vendor_id == vendor_id
        &&& self.product_code matches Some(code) ==> code == product_code
    }

    fn matches(&self, vendor_id: u32, product_code: u32) -> (r: bool)
        ensures
            r == self.covers(vendor_id, product_code),
    {
        self.vendor_id == vendor_id && match self.product_code {
            Some(code) => code == product_code,
            None => true,
        }
    }
}

/// The kind of an identity by a table: that of the first row that covers it, else
/// the default.
pub open spec fn kind_in(table: Seq<KnownDevice>, vendor_id: u32, product_code: u32) -> DeviceKind
    decreases table.len(),
{
    if table.len() == 0 {
        DeviceKind::Motor
    } else if table[0].covers(vendor_id, product_code) {
        table[0].kind
    } else {
        kind_in(table.drop_first(), vendor_id, product_code)
    }
}

/// The rows of the table.
pub open spec fn registry() -> Seq<KnownDevice> {
    seq![
        KnownDevice {
            vendor_id: VENDOR_HEXM,
            product_code: Some(PRODUCT_IMU),
            kind: DeviceKind::Imu,
            name: "hex-meow IMU",
        },
    ]
}

/// The non-motor devices that can be displayed. Every IMU product code goes to
/// the one IMU panel: new variants are new rows.
pub fn non_motor_devices() -> (table: Vec<KnownDevice>)
    ensures
        table@ == registry(),
{
    let table: Vec<KnownDevice> = vec![
        KnownDevice {
            vendor_id: VENDOR_HEXM,
            product_code: Some(PRODUCT_IMU),
            kind: DeviceKind::Imu,
            name: "hex-meow IMU",
        },
    ];
    assert(table@ =~= registry());
    table
}

/// Classifies an identity by a table.
pub fn classify_in(table: &[KnownDevice], vendor_id: u32, product_code: u32) -> (kind: DeviceKind)
    ensures
        kind == kind_in(table@, vendor_id, product_code),
{
    let n: usize = table.len();
    assert(table@.skip(0) =~= table@);
    for i in 0..n
        invariant
            n == table@.len(),
            kind_in(table@, vendor_id, product_code) == kind_in(
                table@.skip(i as int),
                vendor_id,
                product_code,
            ),
    {
        assert(table@.skip(i as int).drop_first() =~= table@.skip(i as int + 1));
        if table[i].matches(vendor_id, product_code) {
            return table[i].kind;
        }
    }
    DeviceKind::Motor
}

/// Classifies a node by its `0x1018` identity. Anything not registered is a
/// [`DeviceKind::Motor`].
pub fn classify(vendor_id: u32, product_code: u32) -> (kind: DeviceKind)
    ensures
        kind == kind_in(registry(), vendor_id, product_code),
        kind == (if vendor_id == VENDOR_HEXM && product_code == PRODUCT_IMU {
            DeviceKind::Imu
        } else {
            DeviceKind::Motor
        }),
{
    proof {
        reveal_with_fuel(kind_in, 2);
    }
    let table: Vec<KnownDevice> = non_motor_devices();
    classify_in(table.as_slice(), vendor_id, product_code)
}

/// What no row covers is a motor.
pub proof fn unlisted_is_motor(table: Seq<KnownDevice>, vendor_id: u32, product_code: u32)
    requires
        forall|i: int|
            #![trigger table[i]]
            0 <= i < table.len() ==> !table[i].covers(vendor_id, product_code),
    ensures
        kind_in(table, vendor_id, product_code) == DeviceKind::Motor,
    decreases table.len(),
{
    if table.len() > 0 {
        let rest = table.drop_first();
        assert forall|i: int| #![trigger rest[i]] 0 <= i < rest.len() implies !rest[i].covers(
            vendor_id,
            product_code,
        ) by {
            assert(rest[i] == table[i + 1]);
        }
        unlisted_is_motor(rest, vendor_id, product_code);
    }
}

/// The first row that covers an identity decides its kind. In particular a
/// wildcard row decides for every product code of its vendor that no earlier row
/// covers.
pub proof fn first_row_decides(
    table: Seq<KnownDevice>,
    row: int,
    vendor_id: u32,
    product_code: u32,
)
    requires
        0 <= row < table.len(),
        table[row].covers(vendor_id, product_code),
        forall|i: int| #![trigger table[i]] 0 <= i < row ==> !table[i].covers(
            vendor_id,
            product_code,
        ),
    ensures
        kind_in(table, vendor_id, product_code) == table[row].kind,
    decreases table.len(),
{
    if row > 0 {
        let rest = table.drop_first();
        assert(rest[row - 1] == table[row]);
        assert forall|i: int| #![trigger rest[i]] 0 <= i < row - 1 implies !rest[i].covers(
            vendor_id,
            product_code,
        ) by {
            assert(rest[i] == table[i + 1]);
        }
        first_row_decides(rest, row - 1, vendor_id, product_code);
    }
}

/// A row added at the end changes the kind of no identity that was covered, and
/// decides for those that were not.
pub proof fn new_rows_leave_old_devices(
    table: Seq<KnownDevice>,
    row: KnownDevice,
    vendor_id: u32,
    product_code: u32,
)
    ensures
        kind_in(table.push(row), vendor_id, product_code) == (if exists|i: int|
            0 <= i < table.len() && (#[trigger] table[i]).covers(vendor_id, product_code) {
            kind_in(table, vendor_id, product_code)
        } else if row.covers(vendor_id, product_code) {
            row.kind
        } else {
            DeviceKind::Motor
        }),
    decreases table.len(),
{
    reveal_with_fuel(kind_in, 2);
    let longer = table.push(row);
    if table.len() == 0 {
        assert(longer.drop_first() =~= seq![]);
    } else if table[0].covers(vendor_id, product_code) {
        assert(longer[0] == table[0]);
    } else {
        let rest = table.drop_first();
        assert(longer.drop_first() =~= rest.push(row));
        new_rows_leave_old_devices(rest, row, vendor_id, product_code);
        if exists|i: int| 0 <= i < table.len() && (#[trigger] table[i]).covers(
            vendor_id,
            product_code,
        ) {
            let i = choose|i: int|
                0 <= i < table.len() && (#[trigger] table[i]).covers(vendor_id, product_code);
            assert(rest[i - 1].covers(vendor_id, product_code));
        } else {
            assert forall|i: int| 0 <= i < rest.len() implies !(#[trigger] rest[i]).covers(
                vendor_id,
                product_code,
            ) by {
                assert(rest[i] == table[i + 1]);
            }
        }
    }
}

/// A row with a product code covers that product of its vendor and nothing else; a row
/// without one covers every product of its vendor and nothing else.
pub proof fn rows_cover_products(row: KnownDevice, vendor_id: u32, product_code: u32)
    ensures
        row.product_code is Some ==> (row.covers(vendor_id, product_code) <==> vendor_id
            == row.vendor_id && Some(product_code) == row.product_code),
        row.product_code is None ==> (row.covers(vendor_id, product_code) <==> vendor_id
            == row.vendor_id),
{
}

/// The table routes the generic IMU to its panel and everything else to the motor panel.
pub proof fn only_the_imu_is_listed(vendor_id: u32, product_code: u32)
    ensures
        kind_in(registry(), vendor_id, product_code) == DeviceKind::Imu <==> vendor_id
            == 0x6865_786D && product_code == 0x0049_4D55,
{
    reveal_with_fuel(kind_in, 2);
}

} // verus!
