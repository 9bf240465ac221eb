//! Minimal flattened device tree (DTB) writer.
//!
//! Produces a device tree blob (format version 17) good enough for the Linux
//! ARM64 boot protocol: begin/end nodes, properties (raw bytes, u32/u64
//! cells, strings, string lists), automatic string-table deduplication, and
//! an empty memory reservation map. All multi-byte values are big-endian per
//! the DTB specification.

use vstd::prelude::*;
use vstd::string::StringSliceAdditionalSpecFns;

verus! {

pub const FDT_MAGIC: u32 = 0xD00D_FEED;

pub const FDT_VERSION: u32 = 17;

pub const FDT_LAST_COMP_VERSION: u32 = 16;

pub const FDT_BEGIN_NODE: u32 = 0x1;

pub const FDT_END_NODE: u32 = 0x2;

pub const FDT_PROP: u32 = 0x3;

pub const FDT_END: u32 = 0x9;

pub const HEADER_LEN: usize = 40;

/// Big-endian encoding of a 32-bit word.
pub open spec fn be32(x: u32) -> Seq<u8> {
    seq![(x >> 24) as u8, (x >> 16) as u8, (x >> 8) as u8, x as u8]
}

/// Big-endian encoding of a 64-bit word (two cells, high first).
pub open spec fn be64(x: u64) -> Seq<u8> {
    be32((x >> 32) as u32) + be32(x as u32)
}

/// `n` zero bytes.
pub open spec fn zeros(n: nat) -> Seq<u8> {
    Seq::new(n, |i: int| 0u8)
}

/// Padding needed to bring a length to a multiple of four.
pub open spec fn pad_len(len: nat) -> nat {
    ((4 - len % 4) % 4) as nat
}

/// `s` zero-padded to a multiple of four bytes.
pub open spec fn pad4(s: Seq<u8>) -> Seq<u8> {
    s + zeros(pad_len(s.len()))
}

/// A string's bytes followed by a NUL terminator.
pub open spec fn cstr(s: Seq<u8>) -> Seq<u8> {
    s.push(0u8)
}

/// The strings block holding `names` in order, each NUL-terminated.
pub open spec fn table_of(names: Seq<Seq<u8>>) -> Seq<u8>
    decreases names.len(),
{
    if names.len() == 0 {
        Seq::empty()
    } else {
        table_of(names.drop_last()) + cstr(names.last())
    }
}

/// Offset of name `k` in the strings block.
pub open spec fn name_pos(names: Seq<Seq<u8>>, k: int) -> int {
    table_of(names.take(k)).len() as int
}

/// Big-endian encoding of a sequence of 32-bit cells.
pub open spec fn cells_bytes(cells: Seq<u32>) -> Seq<u8>
    decreases cells.len(),
{
    if cells.len() == 0 {
        Seq::empty()
    } else {
        cells_bytes(cells.drop_last()) + be32(cells.last())
    }
}

/// Each string NUL-terminated, concatenated.
pub open spec fn str_list_bytes(values: Seq<Seq<u8>>) -> Seq<u8> {
    table_of(values)
}

/// A string-list property's data is each string followed by one NUL byte:
/// an empty list gives no bytes, and one more string appends its bytes and
/// a NUL, so the data of a non-empty list ends in 0.
pub proof fn lemma_str_list_bytes(values: Seq<Seq<u8>>, s: Seq<u8>)
    ensures
        str_list_bytes(Seq::empty()) == Seq::<u8>::empty(),
        str_list_bytes(values.push(s)) == str_list_bytes(values) + s + seq![0u8],
        str_list_bytes(values.push(s)).len() == str_list_bytes(values).len() + s.len() + 1,
        str_list_bytes(values.push(s)).last() == 0u8,
{
    assert(values.push(s).drop_last() =~= values);
    assert(cstr(s) =~= s + seq![0u8]);
    assert(str_list_bytes(values.push(s)) =~= str_list_bytes(values) + s + seq![0u8]);
}

/// The structure-block encoding of a node header.
pub open spec fn begin_node_bytes(name: Seq<u8>) -> Seq<u8> {
    pad4(be32(FDT_BEGIN_NODE) + cstr(name))
}

/// The structure-block encoding of a property whose name sits at
/// `name_off` in the strings block.
pub open spec fn prop_bytes(name_off: u32, data: Seq<u8>) -> Seq<u8> {
    pad4(be32(FDT_PROP) + be32(data.len() as u32) + be32(name_off) + data)
}

/// The finished blob for a structure block (without its end token) and a
/// strings block: header, empty reservation map, structure, strings.
pub open spec fn blob_of(structure: Seq<u8>, strings: Seq<u8>) -> Seq<u8> {
    let st = structure + be32(FDT_END);
    let strs = pad4(strings);
    let struct_off: int = 56;
    let strings_off: int = struct_off + st.len();
    let total: int = strings_off + strs.len();
    be32(FDT_MAGIC) + be32(total as u32) + be32(struct_off as u32) + be32(strings_off as u32)
        + be32(40) + be32(FDT_VERSION) + be32(FDT_LAST_COMP_VERSION) + be32(0) + be32(
        strs.len() as u32,
    ) + be32(st.len() as u32) + zeros(16) + st + strs
}

/// Padding an aligned prefix leaves it alone.
proof fn lemma_pad_aligned(s: Seq<u8>, t: Seq<u8>)
    requires
        s.len() % 4 == 0,
    ensures
        pad4(s + t) == s + pad4(t),
        pad4(t).len() % 4 == 0,
{
    assert((s + t).len() % 4 == t.len() % 4);
    assert(pad4(s + t) =~= s + pad4(t));
}

fn push_be32(v: &mut Vec<u8>, x: u32)
    ensures
        final(v)@ == old(v)@ + be32(x),
{
    v.push((x >> 24) as u8);
    v.push((x >> 16) as u8);
    v.push((x >> 8) as u8);
    v.push(x as u8);
    proof {
        assert(final(v)@ =~= old(v)@ + be32(x));
    }
}

fn push_bytes(v: &mut Vec<u8>, data: &[u8])
    ensures
        final(v)@ == old(v)@ + data@,
{
    let mut i: usize = 0;
    while i < data.len()
        invariant
            i <= data@.len(),
            v@ == old(v)@ + data@.take(i as int),
        decreases data@.len() - i,
    {
        v.push(data[i]);
        i += 1;
        proof {
            assert(data@.take(i as int) =~= data@.take(i - 1) + seq![data@[i - 1]]);
        }
    }
    proof {
        assert(data@.take(data@.len() as int) =~= data@);
    }
}

fn pad_vec(v: &mut Vec<u8>)
    ensures
        final(v)@ == pad4(old(v)@),
{
    let ghost start = v@;
    while v.len() % 4 != 0
        invariant
            v@.len() >= start.len(),
            v@ == start + zeros((v@.len() - start.len()) as nat),
            v@.len() - start.len() <= pad_len(start.len()),
            (v@.len() - start.len()) + pad_len(v@.len()) == pad_len(start.len()),
        decreases pad_len(v@.len()),
    {
        v.push(0);
        proof {
            assert(v@ =~= start + zeros((v@.len() - start.len()) as nat));
        }
    }
    proof {
        assert(v@ =~= pad4(start));
    }
}

fn bytes_eq(a: &[u8], b: &[u8]) -> (r: bool)
    ensures
        r == (a@ == b@),
{
    if a.len() != b.len() {
        return false;
    }
    let mut i: usize = 0;
    while i < a.len()
        invariant
            i <= a@.len(),
            a@.len() == b@.len(),
            forall|j: int| 0 <= j < i ==> a@[j] == b@[j],
        decreases a@.len() - i,
    {
        if a[i] != b[i] {
            return false;
        }
        i += 1;
    }
    proof {
        assert(a@ =~= b@);
    }
    true
}

/// Incremental DTB builder.
pub struct FdtBuilder {
    structure: Vec<u8>,
    strings: Vec<u8>,
    /// Property names already in the strings block, with their offsets.
    string_offsets: Vec<(Vec<u8>, u32)>,
    open_nodes: usize,
}

impl FdtBuilder {
    /// The structure block built so far.
    pub closed spec fn structure_view(&self) -> Seq<u8> {
        self.structure@
    }

    /// The strings block built so far.
    pub closed spec fn strings_view(&self) -> Seq<u8> {
        self.strings@
    }

    /// The distinct property names, in order of first use.
    pub closed spec fn names(&self) -> Seq<Seq<u8>> {
        self.string_offsets@.map_values(|e: (Vec<u8>, u32)| e.0@)
    }

    /// Number of nodes opened and not yet closed.
    pub closed spec fn open_count(&self) -> nat {
        self.open_nodes as nat
    }

    /// The strings block holds exactly the recorded names, each once, at
    /// their recorded offsets.
    pub closed spec fn wf(&self) -> bool {
        &&& self.structure@.len() % 4 == 0
        &&& self.strings@ == table_of(self.names())
        &&& forall|k: int|
            0 <= k < self.string_offsets@.len() ==> (#[trigger] self.string_offsets@[k]).1
                == name_pos(self.names(), k) as u32
        &&& forall|j: int, k: int|
            0 <= j < k < self.names().len() ==> self.names()[j] != self.names()[k]
    }

    /// What well-formedness gives a caller: an aligned structure block, and
    /// a strings block that is the table of the distinct recorded names.
    pub proof fn lemma_wf(&self)
        requires
            self.wf(),
        ensures
            self.structure_view().len() % 4 == 0,
            self.strings_view() == table_of(self.names()),
            forall|j: int, k: int|
                0 <= j < k < self.names().len() ==> self.names()[j] != self.names()[k],
    {
    }

    /// Offset the strings block gives `name`: where it already sits, or the
    /// end of the block for a new name.
    pub open spec fn offset_for(&self, name: Seq<u8>) -> u32 {
        if self.names().contains(name) {
            name_pos(self.names(), self.names().index_of(name)) as u32
        } else {
            self.strings_view().len() as u32
        }
    }

    /// The name list after using `name`.
    pub open spec fn names_with(&self, name: Seq<u8>) -> Seq<Seq<u8>> {
        if self.names().contains(name) {
            self.names()
        } else {
            self.names().push(name)
        }
    }

    /// `self` is `o` with a property `name` of `data` appended.
    pub open spec fn prop_appended(&self, o: &FdtBuilder, name: Seq<u8>, data: Seq<u8>) -> bool {
        &&& self.structure_view() == o.structure_view() + prop_bytes(o.offset_for(name), data)
        &&& self.names() == o.names_with(name)
        &&& self.strings_view() == table_of(self.names())
        &&& self.open_count() == o.open_count()
    }

    pub fn new() -> (r: Self)
        ensures
            r.wf(),
            r.structure_view() == Seq::<u8>::empty(),
            r.strings_view() == Seq::<u8>::empty(),
            r.names() == Seq::<Seq<u8>>::empty(),
            r.open_count() == 0,
    {
        let r = FdtBuilder {
            structure: Vec::new(),
            strings: Vec::new(),
            string_offsets: Vec::new(),
            open_nodes: 0,
        };
        proof {
            assert(r.names() =~= Seq::<Seq<u8>>::empty());
        }
        r
    }

    fn push_token(&mut self, token: u32)
        ensures
            final(self).structure@ == old(self).structure@ + be32(token),
            final(self).strings@ == old(self).strings@,
            final(self).string_offsets@ == old(self).string_offsets@,
            final(self).open_nodes == old(self).open_nodes,
    {
        push_be32(&mut self.structure, token);
    }

    fn pad_structure(&mut self)
        ensures
            final(self).structure@ == pad4(old(self).structure@),
            final(self).strings@ == old(self).strings@,
            final(self).string_offsets@ == old(self).string_offsets@,
            final(self).open_nodes == old(self).open_nodes,
    {
        pad_vec(&mut self.structure);
    }

    fn string_offset(&mut self, name: &str) -> (r: u32)
        requires
            old(self).wf(),
        ensures
            final(self).wf(),
            r == old(self).offset_for(name.spec_bytes()),
            final(self).names() == old(self).names_with(name.spec_bytes()),
            final(self).structure@ == old(self).structure@,
            final(self).open_nodes == old(self).open_nodes,
    {
        let bytes = name.as_bytes();
        let mut k: usize = 0;
        while k < self.string_offsets.len()
            invariant
                k <= self.string_offsets@.len(),
                bytes@ == name.spec_bytes(),
                self.wf(),
                *self == *old(self),
                forall|j: int| 0 <= j < k ==> #[trigger] self.names()[j] != bytes@,
            decreases self.string_offsets@.len() - k,
        {
            if bytes_eq(self.string_offsets[k].0.as_slice(), bytes) {
                let off = self.string_offsets[k].1;
                proof {
                    assert(self.names()[k as int] == bytes@);
                    assert(self.names().contains(bytes@));
                    assert(self.names().index_of(bytes@) == k as int) by {
                        let i = self.names().index_of(bytes@);
                        assert(self.names()[i] == bytes@);
                        if i != k {
                            assert(self.names()[i] != self.names()[k as int]);
                        }
                    }
                }
                return off;
            }
            k += 1;
        }
        proof {
            assert(!self.names().contains(bytes@)) by {
                if self.names().contains(bytes@) {
                    let i = self.names().index_of(bytes@);
                    assert(self.names()[i] != bytes@);
                }
            }
        }
        let off = self.strings.len() as u32;
        let ghost old_names = self.names();
        push_bytes(&mut self.strings, bytes);
        self.strings.push(0);
        let mut owned: Vec<u8> = Vec::new();
        push_bytes(&mut owned, bytes);
        self.string_offsets.push((owned, off));
        proof {
            let names = self.names();
            assert(names =~= old_names.push(bytes@));
            assert(names.drop_last() =~= old_names);
            assert(self.strings@ =~= table_of(names));
            assert forall|a: int, b: int| 0 <= a < b < names.len() implies names[a] != names[b] by {
                if b == old_names.len() {
                    assert(names[a] == old_names[a]);
                    assert(old_names.contains(old_names[a]));
                }
            }
            assert forall|j: int| 0 <= j < self.string_offsets@.len() implies (
            #[trigger] self.string_offsets@[j]).1 == name_pos(names, j) as u32 by {
                if j < old_names.len() {
                    assert(names.take(j) =~= old_names.take(j));
                } else {
                    assert(names.take(j) =~= old_names);
                }
            }
        }
        off
    }

    /// Open a node. The root node uses the empty name `""`.
    pub fn begin_node(&mut self, name: &str)
        requires
            old(self).wf(),
            old(self).open_count() < usize::MAX,
        ensures
            final(self).wf(),
            final(self).structure_view() == old(self).structure_view() + begin_node_bytes(
                name.spec_bytes(),
            ),
            final(self).strings_view() == old(self).strings_view(),
            final(self).names() == old(self).names(),
            final(self).open_count() == old(self).open_count() + 1,
    {
        self.push_token(FDT_BEGIN_NODE);
        push_bytes(&mut self.structure, name.as_bytes());
        self.structure.push(0);
        let ghost unpadded = self.structure@;
        self.pad_structure();
        self.open_nodes += 1;
        proof {
            let t = be32(FDT_BEGIN_NODE) + cstr(name.spec_bytes());
            assert(unpadded =~= old(self).structure@ + t);
            lemma_pad_aligned(old(self).structure@, t);
        }
    }

    /// Close the most recently opened node.
    pub fn end_node(&mut self)
        requires
            old(self).wf(),
            old(self).open_count() > 0,
        ensures
            final(self).wf(),
            final(self).structure_view() == old(self).structure_view() + be32(FDT_END_NODE),
            final(self).strings_view() == old(self).strings_view(),
            final(self).names() == old(self).names(),
            final(self).open_count() == old(self).open_count() - 1,
    {
        self.push_token(FDT_END_NODE);
        self.open_nodes = self.open_nodes.saturating_sub(1);
    }

    /// Raw property bytes.
    pub fn prop(&mut self, name: &str, data: &[u8])
        requires
            old(self).wf(),
        ensures
            final(self).wf(),
            final(self).prop_appended(old(self), name.spec_bytes(), data@),
    {
        let name_off = self.string_offset(name);
        self.push_token(FDT_PROP);
        push_be32(&mut self.structure, data.len() as u32);
        push_be32(&mut self.structure, name_off);
        push_bytes(&mut self.structure, data);
        let ghost unpadded = self.structure@;
        self.pad_structure();
        proof {
            let t = be32(FDT_PROP) + be32(data@.len() as u32) + be32(name_off) + data@;
            assert(unpadded =~= old(self).structure@ + t);
            lemma_pad_aligned(old(self).structure@, t);
        }
    }

    /// Empty (boolean) property.
    pub fn prop_empty(&mut self, name: &str)
        requires
            old(self).wf(),
        ensures
            final(self).wf(),
            final(self).prop_appended(old(self), name.spec_bytes(), Seq::<u8>::empty()),
    {
        let empty: Vec<u8> = Vec::new();
        self.prop(name, empty.as_slice());
    }

    /// Single u32 cell.
    pub fn prop_u32(&mut self, name: &str, value: u32)
        requires
            old(self).wf(),
        ensures
            final(self).wf(),
            final(self).prop_appended(old(self), name.spec_bytes(), be32(value)),
    {
        let mut data: Vec<u8> = Vec::new();
        push_be32(&mut data, value);
        self.prop(name, data.as_slice());
    }

    /// u64 as two cells.
    pub fn prop_u64(&mut self, name: &str, value: u64)
        requires
            old(self).wf(),
        ensures
            final(self).wf(),
            final(self).prop_appended(old(self), name.spec_bytes(), be64(value)),
    {
        let mut data: Vec<u8> = Vec::new();
        push_be32(&mut data, (value >> 32) as u32);
        push_be32(&mut data, value as u32);
        self.prop(name, data.as_slice());
    }

    /// Array of u32 cells.
    pub fn prop_cells(&mut self, name: &str, cells: &[u32])
        requires
            old(self).wf(),
        ensures
            final(self).wf(),
            final(self).prop_appended(old(self), name.spec_bytes(), cells_bytes(cells@)),
    {
        let mut data: Vec<u8> = Vec::new();
        let mut i: usize = 0;
        while i < cells.len()
            invariant
                i <= cells@.len(),
                data@ == cells_bytes(cells@.take(i as int)),
            decreases cells@.len() - i,
        {
            push_be32(&mut data, cells[i]);
            i += 1;
            proof {
                assert(cells@.take(i as int).drop_last() =~= cells@.take(i - 1));
            }
        }
        proof {
            assert(cells@.take(cells@.len() as int) =~= cells@);
        }
        self.prop(name, data.as_slice());
    }

    /// NUL-terminated string.
    pub fn prop_str(&mut self, name: &str, value: &str)
        requires
            old(self).wf(),
        ensures
            final(self).wf(),
            final(self).prop_appended(old(self), name.spec_bytes(), cstr(value.spec_bytes())),
    {
        let mut data: Vec<u8> = Vec::new();
        push_bytes(&mut data, value.as_bytes());
        data.push(0);
        self.prop(name, data.as_slice());
    }

    /// List of NUL-terminated strings (e.g. multiple `compatible` entries).
    pub fn prop_str_list(&mut self, name: &str, values: &[&str])
        requires
            old(self).wf(),
        ensures
            final(self).wf(),
            final(self).prop_appended(
                old(self),
                name.spec_bytes(),
                str_list_bytes(values@.map_values(|v: &str| v.spec_bytes())),
            ),
    {
        let ghost all = values@.map_values(|v: &str| v.spec_bytes());
        let mut data: Vec<u8> = Vec::new();
        let mut i: usize = 0;
        while i < values.len()
            invariant
                i <= values@.len(),
                all == values@.map_values(|v: &str| v.spec_bytes()),
                data@ == table_of(all.take(i as int)),
            decreases values@.len() - i,
        {
            push_bytes(&mut data, values[i].as_bytes());
            data.push(0);
            i += 1;
            proof {
                assert(all.take(i as int).drop_last() =~= all.take(i - 1));
                assert(data@ =~= table_of(all.take(i as int)));
            }
        }
        proof {
            assert(all.take(values@.len() as int) =~= all);
        }
        self.prop(name, data.as_slice());
    }

    /// Finalize into a DTB.
    pub fn finish(self) -> (r: Vec<u8>)
        requires
            self.wf(),
            self.open_count() == 0,
            self.structure_view().len() + self.strings_view().len() + 64 <= usize::MAX,
        ensures
            r@ == blob_of(self.structure_view(), self.strings_view()),
    {
        let mut this = self;
        this.push_token(FDT_END);

        // Layout: header | mem rsvmap (empty terminator) | struct | strings.
        // Pad the strings block so the blob (and totalsize) stay 4-aligned.
        pad_vec(&mut this.strings);
        let rsvmap_off = HEADER_LEN;
        let rsvmap_len: usize = 16;  // single (0, 0) terminator entry
        let struct_off = rsvmap_off + rsvmap_len;
        let strings_off = struct_off + this.structure.len();
        let total_size = strings_off + this.strings.len();

        let ghost st = self.structure@ + be32(FDT_END);
        let ghost strs = pad4(self.strings@);
        assert(this.structure@ == st);
        assert(this.strings@ == strs);
        let mut blob: Vec<u8> = Vec::new();
        push_be32(&mut blob, FDT_MAGIC);
        push_be32(&mut blob, total_size as u32);
        push_be32(&mut blob, struct_off as u32);
        push_be32(&mut blob, strings_off as u32);
        push_be32(&mut blob, rsvmap_off as u32);
        push_be32(&mut blob, FDT_VERSION);
        push_be32(&mut blob, FDT_LAST_COMP_VERSION);
        push_be32(&mut blob, 0);  // boot_cpuid_phys
        push_be32(&mut blob, this.strings.len() as u32);
        push_be32(&mut blob, this.structure.len() as u32);
        let ghost hdr40 = blob@;
        assert(blob@.subrange(0, 40) =~= hdr40);
        let mut k: usize = 0;
        while k < 16
            invariant
                k <= 16,
                blob@.len() == 40 + k,
                blob@.subrange(0, 40) == hdr40,
                forall|j: int| 40 <= j < 40 + k ==> blob@[j] == 0u8,
            decreases 16 - k,
        {
            blob.push(0);  // empty reservation map
            k += 1;
            assert(blob@.subrange(0, 40) =~= hdr40);
        }
        let ghost head = blob@;
        push_bytes(&mut blob, this.structure.as_slice());
        push_bytes(&mut blob, this.strings.as_slice());
        proof {
            let hdr = be32(FDT_MAGIC) + be32(total_size as u32) + be32(struct_off as u32) + be32(
                strings_off as u32,
            ) + be32(rsvmap_off as u32) + be32(FDT_VERSION) + be32(FDT_LAST_COMP_VERSION) + be32(
                0,
            ) + be32(strs.len() as u32) + be32(st.len() as u32);
            assert(hdr40 =~= hdr);
            assert(head =~= hdr + zeros(16)) by {
                assert(head.subrange(0, 40) == hdr);
            }
            assert(total_size as int == 56 + st.len() + strs.len());
            assert(blob@ =~= hdr + zeros(16) + st + strs);
        }
        blob
    }
}

impl Default for FdtBuilder {
    fn default() -> (r: Self)
        ensures
            r.wf(),
            r.structure_view() == Seq::<u8>::empty(),
            r.strings_view() == Seq::<u8>::empty(),
            r.open_count() == 0,
    {
        Self::new()
    }
}

// =============================================================================
// Laws
// =============================================================================

/// Every recorded name sits in the strings block at its offset, followed
/// by a NUL byte.
pub proof fn lemma_name_in_table(names: Seq<Seq<u8>>, k: int)
    requires
        0 <= k < names.len(),
    ensures
        ({
            let t = table_of(names);
            let p = name_pos(names, k);
            &&& p + names[k].len() < t.len()
            &&& t.subrange(p, p + names[k].len()) == names[k]
            &&& t[p + names[k].len()] == 0u8
        }),
    decreases names.len(),
{
    let last = names.len() - 1;
    if k == last {
        assert(names.take(k) =~= names.drop_last());
    } else {
        lemma_name_in_table(names.drop_last(), k);
        assert(names.drop_last().take(k) =~= names.take(k));
        let t0 = table_of(names.drop_last());
        let p = name_pos(names, k);
        assert(table_of(names).subrange(p, p + names[k].len()) =~= t0.subrange(
            p,
            p + names[k].len(),
        ));
    }
}

/// Using a property name a second time leaves the strings block as it
/// was: names are stored once.
pub proof fn lemma_prop_dedup(o: &FdtBuilder, g: &FdtBuilder, name: Seq<u8>, data: Seq<u8>)
    requires
        o.wf(),
        g.prop_appended(o, name, data),
        o.names().contains(name),
    ensures
        g.strings_view() == o.strings_view(),
        g.names() == o.names(),
{
}

/// The blob is the header and reservation map (56 bytes), the structure
/// block with its end token, and the padded strings block; its length is
/// a multiple of four when the structure block is aligned, and the header's
/// total-size field records that length.
pub proof fn lemma_blob_layout(structure: Seq<u8>, strings: Seq<u8>)
    requires
        structure.len() % 4 == 0,
        56 + structure.len() + 4 + strings.len() + 4 < 0x1_0000_0000,
    ensures
        ({
            let b = blob_of(structure, strings);
            &&& b.len() == 56 + structure.len() + 4 + pad4(strings).len()
            &&& b.len() % 4 == 0
            &&& b.subrange(0, 4) == be32(FDT_MAGIC)
            &&& b.subrange(4, 8) == be32(b.len() as u32)
            &&& b.subrange(20, 24) == be32(FDT_VERSION)
            &&& b.subrange(56, 60) == structure.subrange(0, 4) || structure.len() == 0
        }),
{
    let b = blob_of(structure, strings);
    let st = structure + be32(FDT_END);
    let strs = pad4(strings);
    assert(b.subrange(0, 4) =~= be32(FDT_MAGIC));
    assert(b.subrange(4, 8) =~= be32((56 + st.len() + strs.len()) as u32));
    assert(b.subrange(20, 24) =~= be32(FDT_VERSION));
    if structure.len() > 0 {
        assert(b.subrange(56, 60) =~= structure.subrange(0, 4));
    }
}

} // verus!
