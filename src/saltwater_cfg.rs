use std::collections::HashMap;
use vstd::prelude::*;
use vstd::std_specs::iter::IteratorSpec;

verus! {

broadcast use vstd::std_specs::hash::group_hash_axioms;

/// The loader's configuration: for each game slot, the name of the tickflow
/// (mod) that replaces it.
pub struct Config {
    pub tickflows: HashMap<u16, Vec<u8>>,
}

/// The four bytes that start a configuration file: "SCF" and the format version.
pub open spec fn magic() -> Seq<u8> {
    seq![0x53u8, 0x43u8, 0x46u8, 0x02u8]
}

/// The value that ends the list of records.
pub const END_MARK: u16 = 0xC000;

/// `v` as two bytes, least significant first.
pub open spec fn le16(v: u16) -> Seq<u8> {
    seq![(v % 0x100) as u8, (v / 0x100) as u8]
}

/// One record: the slot, the name's length (which wraps at 16 bits), then the name.
pub open spec fn record_bytes(slot: u16, name: Seq<u8>) -> Seq<u8> {
    le16(slot) + le16(name.len() as u16) + name
}

/// The records of `entries`, one after another.
pub open spec fn records_bytes(entries: Seq<(u16, Seq<u8>)>) -> Seq<u8>
    decreases entries.len(),
{
    if entries.len() == 0 {
        Seq::empty()
    } else {
        records_bytes(entries.drop_last()) + record_bytes(
            entries.last().0,
            entries.last().1,
        )
    }
}

/// A whole configuration file holding `entries` in that order.
pub open spec fn file_bytes(entries: Seq<(u16, Seq<u8>)>) -> Seq<u8> {
    magic() + records_bytes(entries) + le16(END_MARK)
}

/// The slot and name of each entry of a map walk.
pub open spec fn entry_views(walk: Seq<(&u16, &Vec<u8>)>) -> Seq<(u16, Seq<u8>)> {
    walk.map_values(|e: (&u16, &Vec<u8>)| (*e.0, e.1@))
}

/// Appends `v` to `out`, least significant byte first.
fn push_le16(out: &mut Vec<u8>, v: u16)
    ensures
        final(out)@ == old(out)@ + le16(v),
{
    out.push((v % 0x100) as u8);
    out.push((v / 0x100) as u8);
    assert(final(out)@ =~= old(out)@ + le16(v));
}

/// Whether `bytes` starts with the configuration file's four magic bytes.
pub fn has_magic(bytes: &Vec<u8>) -> (r: bool)
    ensures
        r == (bytes.len() >= 4 && bytes@.subrange(0, 4) == magic()),
{
    let ok = bytes.len() >= 4 && bytes[0] == 0x53 && bytes[1] == 0x43 && bytes[2] == 0x46
        && bytes[3] == 0x02;
    if bytes.len() >= 4 {
        if ok {
            assert(bytes@.subrange(0, 4) =~= magic());
        } else {
            assert(bytes@.subrange(0, 4)[0] == bytes@[0]);
            assert(bytes@.subrange(0, 4)[1] == bytes@[1]);
            assert(bytes@.subrange(0, 4)[2] == bytes@[2]);
            assert(bytes@.subrange(0, 4)[3] == bytes@[3]);
        }
    }
    ok
}

impl Config {
    /// The configuration file's bytes: the magic bytes, one record for each
    /// entry of the map in the order the map is walked, and the end mark.
    pub fn to_bytes(&self) -> (r: Vec<u8>)
        ensures
            exists|walk: Seq<(&u16, &Vec<u8>)>|
                {
                    &&& walk.no_duplicates()
                    &&& walk.unref().to_set() == self.tickflows@.kv_pairs()
                    &&& r@ == file_bytes(entry_views(walk))
                },
    {
        let mut out: Vec<u8> = Vec::new();
        out.push(0x53u8);
        out.push(0x43u8);
        out.push(0x46u8);
        out.push(0x02u8);
        assert(out@ =~= magic() + records_bytes(Seq::empty()));
        let ghost walk = vstd::std_specs::hash::spec_hash_map_iter(&self.tickflows).remaining();
        for entry in it: self.tickflows.iter()
            invariant
                it.seq() == walk,
                out@ == magic() + records_bytes(entry_views(walk.take(it.index() as int))),
        {
            let (slot, name) = entry;
            let ghost done = entry_views(walk.take(it.index() as int));
            push_le16(&mut out, *slot);
            push_le16(&mut out, name.len() as u16);
            let mut i: usize = 0;
            let ghost start = out@;
            while i < name.len()
                invariant
                    i <= name.len(),
                    out@ == start + name@.subrange(0, i as int),
                decreases name.len() - i,
            {
                out.push(name[i]);
                i += 1;
                assert(out@ =~= start + name@.subrange(0, i as int));
            }
            proof {
                assert(it.index() < walk.len());
                assert(*slot == *walk[it.index() as int].0);
                assert(name == walk[it.index() as int].1);
                let next = entry_views(walk.take(it.index() + 1));
                assert(next.drop_last() =~= done);
                assert(name@.subrange(0, i as int) =~= name@);
                assert(out@ =~= magic() + records_bytes(next));
            }
        }
        push_le16(&mut out, END_MARK);
        assert(walk.take(walk.len() as int) =~= walk);
        assert(out@ == file_bytes(entry_views(walk)));
        out
    }
}

} // verus!
