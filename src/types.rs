use vstd::prelude::*;

verus! {

/// An IPv4 address as its four octets, most significant first.
#[derive(Debug, Clone, Copy, PartialEq, Eq, PartialOrd, Ord, Hash)]
pub struct Ipv4Address {
    pub octets: [u8; 4],
}

/// An IPv6 address as its sixteen octets, most significant first.
#[derive(Debug, Clone, Copy, PartialEq, Eq, PartialOrd, Ord, Hash)]
pub struct Ipv6Addres {
    pub octets: [u8; 16],
}

/// An address of either family.
#[derive(Debug, Clone, Copy, PartialEq, Eq, PartialOrd, Ord, Hash)]
pub enum IpAddress {
    V4(Ipv4Address),
    V6(Ipv6Addres),
}

/// A peer found on the local network: its name, the addresses it answers
/// on, and its service port.
#[derive(Debug, Clone)]
pub struct ScanResult {
    pub name: String,
    pub addrs: Vec<IpAddress>,
    pub port: u16,
}

/// The records of one discovery batch, in the batch's order, without the
/// names they were keyed by.
pub fn batch_results(batch: Vec<(String, ScanResult)>) -> (r: Vec<ScanResult>)
    ensures
        r@ == batch@.map_values(|p: (String, ScanResult)| p.1),
{
    let ghost orig = batch@.map_values(|p: (String, ScanResult)| p.1);
    let mut rest = batch;
    let mut out: Vec<ScanResult> = Vec::new();
    while rest.len() > 0
        invariant
            out@ + rest@.map_values(|p: (String, ScanResult)| p.1) == orig,
        decreases rest.len(),
    {
        let ghost before = rest@;
        let (_, rec) = rest.remove(0);
        assert(before.map_values(|p: (String, ScanResult)| p.1) =~= seq![rec] + rest@.map_values(
            |p: (String, ScanResult)| p.1,
        ));
        out.push(rec);
        assert(out@ + rest@.map_values(|p: (String, ScanResult)| p.1) =~= orig);
    }
    assert(rest@.map_values(|p: (String, ScanResult)| p.1) =~= Seq::<ScanResult>::empty());
    assert(out@ =~= orig);
    out
}

} // verus!
