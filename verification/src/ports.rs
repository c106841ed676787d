//! Device selection: picking out the robot base among the platform's serial
//! ports.
//!
//! The platform's enumeration is handed in as plain descriptors; the filter
//! keeps the USB ports whose serial number contains the device keyword.

use vstd::prelude::*;

use vstd::utf8::encode_utf8;

verus! {

/// One enumerated serial port: its name, and its USB serial number where
/// the platform reports one. A port that is not a USB port, or whose
/// descriptor carries no serial number, has `None` here.
#[derive(Clone, Debug)]
pub struct PortInfo {
    pub port_name: String,
    pub usb_serial_number: Option<String>,
}

/// No enumerated port matched the device keyword.
#[derive(Clone, Copy, Debug, PartialEq, Eq, Structural)]
pub enum PortError {
    NoPort,
}

/// `needle` occurs as a contiguous run inside `hay`.
pub open spec fn contains_subseq(hay: Seq<u8>, needle: Seq<u8>) -> bool {
    exists|i: int|
        #![trigger hay.subrange(i, i + needle.len())]
        0 <= i <= hay.len() - needle.len() && hay.subrange(i, i + needle.len()) == needle
}

/// The UTF-8 bytes of the keyword `kobuki` that marks the device's USB
/// descriptor.
pub open spec fn kobuki_bytes() -> Seq<u8> {
    seq![107u8, 111u8, 98u8, 117u8, 107u8, 105u8]
}

/// Returns true iff `needle` occurs as a contiguous run inside `hay`.
pub fn contains_bytes(hay: &[u8], needle: &[u8]) -> (r: bool)
    ensures
        r == contains_subseq(hay@, needle@),
{
    let n = hay.len();
    let m = needle.len();
    if m == 0 {
        proof {
            assert(hay@.subrange(0, 0 + needle@.len() as int) =~= needle@);
        }
        return true;
    }
    if m > n {
        return false;
    }
    let mut i: usize = 0;
    while i <= n - m
        invariant
            1 <= m <= n,
            n == hay@.len(),
            m == needle@.len(),
            i <= n - m + 1,
            forall|i2: int|
                0 <= i2 < i ==> #[trigger] hay@.subrange(i2, i2 + needle@.len()) != needle@,
        decreases n - m + 1 - i,
    {
        let mut j: usize = 0;
        while j < m && hay[i + j] == needle[j]
            invariant
                i + m <= n,
                n == hay@.len(),
                m == needle@.len(),
                j <= m,
                forall|j2: int| 0 <= j2 < j ==> hay@[i + j2] == needle@[j2],
            decreases m - j,
        {
            j = j + 1;
        }
        if j == m {
            proof {
                assert(hay@.subrange(i as int, i + m as int) =~= needle@);
            }
            return true;
        }
        proof {
            assert(hay@.subrange(i as int, i + m as int)[j as int] == hay@[i + j]);
            assert(hay@.subrange(i as int, i as int + needle@.len()) != needle@);
        }
        i = i + 1;
    }
    false
}

/// A port belongs to the device: it is a USB port whose serial number
/// contains the keyword.
pub open spec fn port_matches(p: PortInfo) -> bool {
    &&& p.usb_serial_number is Some
    &&& contains_subseq(encode_utf8(p.usb_serial_number->Some_0@), kobuki_bytes())
}

/// The names of the matching ports, in enumeration order.
pub open spec fn spec_kobuki_ports(ports: Seq<PortInfo>) -> Seq<String>
    decreases ports.len(),
{
    if ports.len() == 0 {
        Seq::empty()
    } else {
        spec_kobuki_ports(ports.drop_last()) + if port_matches(ports.last()) {
            seq![ports.last().port_name]
        } else {
            Seq::empty()
        }
    }
}

/// Appending a port appends its name exactly when the port matches.
pub proof fn lemma_kobuki_ports_push(ports: Seq<PortInfo>, p: PortInfo)
    ensures
        spec_kobuki_ports(ports.push(p)) == spec_kobuki_ports(ports) + if port_matches(p) {
            seq![p.port_name]
        } else {
            Seq::<String>::empty()
        },
{
    assert(ports.push(p).drop_last() =~= ports);
    assert(ports.push(p).last() == p);
}

/// Builds the keyword as bytes.
fn kobuki_needle() -> (v: Vec<u8>)
    ensures
        v@ == kobuki_bytes(),
{
    let mut v: Vec<u8> = Vec::new();
    v.push(107);  // k
    v.push(111);  // o
    v.push(98);  // b
    v.push(117);  // u
    v.push(107);  // k
    v.push(105);  // i
    proof {
        assert(v@ =~= kobuki_bytes());
    }
    v
}

/// Copies a string through `as_str`, which carries a contract.
fn copy_string(s: &String) -> (r: String)
    ensures
        r@ == s@,
{
    String::from_str(s.as_str())
}

/// Keeps the names of the USB ports whose serial number contains the device
/// keyword, in enumeration order.
pub fn filter_kobuki_ports(ports: &Vec<PortInfo>) -> (found: Vec<String>)
    ensures
        found@.len() == spec_kobuki_ports(ports@).len(),
        forall|k: int|
            0 <= k < found@.len() ==> #[trigger] found@[k]@ == spec_kobuki_ports(ports@)[k]@,
{
    let needle = kobuki_needle();
    let n = ports.len();
    let mut found: Vec<String> = Vec::new();
    let mut i: usize = 0;
    while i < n
        invariant
            i <= n,
            n == ports@.len(),
            needle@ == kobuki_bytes(),
            found@.len() == spec_kobuki_ports(ports@.subrange(0, i as int)).len(),
            forall|k: int|
                0 <= k < found@.len() ==> #[trigger] found@[k]@ == spec_kobuki_ports(
                    ports@.subrange(0, i as int),
                )[k]@,
        decreases n - i,
    {
        proof {
            assert(ports@.subrange(0, i + 1 as int) =~= ports@.subrange(0, i as int).push(
                ports@[i as int],
            ));
            lemma_kobuki_ports_push(ports@.subrange(0, i as int), ports@[i as int]);
        }
        let p = &ports[i];
        let matched = match &p.usb_serial_number {
            Some(serial) => contains_bytes(serial.as_str().as_bytes(), needle.as_slice()),
            None => false,
        };
        if matched {
            found.push(copy_string(&p.port_name));
        }
        i = i + 1;
    }
    proof {
        assert(ports@.subrange(0, n as int) =~= ports@);
    }
    found
}

/// Selects the device's ports from an enumeration: the matching names in
/// order, or `NoPort` when none matches (in particular when the enumeration
/// is empty).
pub fn search_port_command(ports: &Vec<PortInfo>) -> (r: Result<Vec<String>, PortError>)
    ensures
        r is Ok <==> spec_kobuki_ports(ports@).len() > 0,
        r is Err ==> r->Err_0 == PortError::NoPort,
        r is Ok ==> r->Ok_0@.len() == spec_kobuki_ports(ports@).len() && forall|k: int|
            0 <= k < r->Ok_0@.len() ==> #[trigger] r->Ok_0@[k]@ == spec_kobuki_ports(ports@)[k]@,
{
    let found = filter_kobuki_ports(ports);
    if found.len() > 0 {
        Ok(found)
    } else {
        Err(PortError::NoPort)
    }
}

} // verus!
