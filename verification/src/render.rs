//! The record of mappings as lines of text.

use crate::descriptors::{AccessPermissions, AttributeFields, MemAttributes};
use crate::mapping_record::{MappingRecord, MappingRecordEntry};
use crate::types::KERNEL_GRANULE_SIZE;
use vstd::prelude::*;
use vstd::string::StringExecFns;

verus! {

/// The digit that stands for `n` in base 16.
pub open spec fn hex_digit_text(n: int) -> Seq<char> {
    if n == 0 {
        "0"@
    } else if n == 1 {
        "1"@
    } else if n == 2 {
        "2"@
    } else if n == 3 {
        "3"@
    } else if n == 4 {
        "4"@
    } else if n == 5 {
        "5"@
    } else if n == 6 {
        "6"@
    } else if n == 7 {
        "7"@
    } else if n == 8 {
        "8"@
    } else if n == 9 {
        "9"@
    } else if n == 10 {
        "A"@
    } else if n == 11 {
        "B"@
    } else if n == 12 {
        "C"@
    } else if n == 13 {
        "D"@
    } else if n == 14 {
        "E"@
    } else {
        "F"@
    }
}

/// The last `digits` digits of `value` in base 16, highest first.
pub open spec fn hex_text(value: int, digits: nat) -> Seq<char>
    decreases digits,
{
    if digits == 0 {
        Seq::<char>::empty()
    } else {
        hex_text(value / 16, (digits - 1) as nat) + hex_digit_text(value % 16)
    }
}

/// An address as text: `0x` and sixteen digits.
pub open spec fn addr_text(value: int) -> Seq<char> {
    "0x"@ + hex_text(value, 16)
}

/// The kind of memory as text, three characters wide.
pub open spec fn mem_attributes_text(m: MemAttributes) -> Seq<char> {
    match m {
        MemAttributes::CacheableDRAM => "C  "@,
        MemAttributes::Device => "Dev"@,
    }
}

/// The accesses allowed as text.
pub open spec fn acc_perms_text(a: AccessPermissions) -> Seq<char> {
    match a {
        AccessPermissions::ReadOnly => "RO"@,
        AccessPermissions::ReadWrite => "RW"@,
    }
}

/// Whether instructions may be fetched as text, two characters wide.
pub open spec fn execute_never_text(execute_never: bool) -> Seq<char> {
    if execute_never {
        "XN"@
    } else {
        "X "@
    }
}

/// The attributes of a mapping as text.
pub open spec fn attr_text(attr: AttributeFields) -> Seq<char> {
    mem_attributes_text(attr.mem_attributes) + " "@ + acc_perms_text(attr.acc_perms) + " "@
        + execute_never_text(attr.execute_never)
}

/// A range of addresses as text: its first and its last address.
pub open spec fn range_text(start: int, num_pages: int) -> Seq<char> {
    addr_text(start) + ".."@ + addr_text(start + num_pages * KERNEL_GRANULE_SIZE - 1)
}

/// One mapping as a line of text: the virtual range, the physical range,
/// the attributes and the owner.
pub open spec fn row_text(entry: MappingRecordEntry) -> Seq<char> {
    range_text(entry.virt_pages.start.value as int, entry.virt_pages.num_pages as int) + " --> "@
        + range_text(entry.phys_pages.start.value as int, entry.phys_pages.num_pages as int)
        + " | "@ + attr_text(entry.attribute_fields) + " | "@ + entry.name@
}

/// The line above the mappings, which names the columns.
pub open spec fn header_text() -> Seq<char> {
    "Virtual                                      Physical                                 Attr        Entity"@
}

/// The record as lines of text: the header, then one line for each mapping,
/// oldest first.
pub open spec fn record_text(entries: Seq<MappingRecordEntry>) -> Seq<Seq<char>> {
    seq![header_text()] + Seq::new(entries.len(), |i: int| row_text(entries[i]))
}

/// The digit that stands for `n` in base 16.
fn hex_digit(n: u64) -> (r: &'static str)
    requires
        n < 16,
    ensures
        r@ == hex_digit_text(n as int),
{
    if n == 0 {
        "0"
    } else if n == 1 {
        "1"
    } else if n == 2 {
        "2"
    } else if n == 3 {
        "3"
    } else if n == 4 {
        "4"
    } else if n == 5 {
        "5"
    } else if n == 6 {
        "6"
    } else if n == 7 {
        "7"
    } else if n == 8 {
        "8"
    } else if n == 9 {
        "9"
    } else if n == 10 {
        "A"
    } else if n == 11 {
        "B"
    } else if n == 12 {
        "C"
    } else if n == 13 {
        "D"
    } else if n == 14 {
        "E"
    } else {
        "F"
    }
}

/// Appends the last `digits` digits of `value` in base 16 to `out`.
fn append_hex(out: &mut String, value: u64, digits: usize)
    ensures
        final(out)@ == old(out)@ + hex_text(value as int, digits as nat),
    decreases digits,
{
    if digits > 0 {
        append_hex(out, value / 16, digits - 1);
        out.append(hex_digit(value % 16));
        assert(out@ =~= old(out)@ + hex_text(value as int, digits as nat));
    } else {
        assert(out@ =~= old(out)@ + hex_text(value as int, digits as nat));
    }
}

/// Appends the address `value` to `out`.
fn append_addr(out: &mut String, value: usize)
    ensures
        final(out)@ == old(out)@ + addr_text(value as int),
{
    out.append("0x");
    append_hex(out, value as u64, 16);
    assert(out@ =~= old(out)@ + addr_text(value as int));
}

/// Appends the range of `num_pages` pages from `start` to `out`.
fn append_range(out: &mut String, start: usize, num_pages: usize)
    requires
        num_pages > 0,
        start + num_pages * KERNEL_GRANULE_SIZE <= usize::MAX,
    ensures
        final(out)@ == old(out)@ + range_text(start as int, num_pages as int),
{
    append_addr(out, start);
    out.append("..");
    append_addr(out, start + (num_pages * KERNEL_GRANULE_SIZE - 1));
    assert(out@ =~= old(out)@ + range_text(start as int, num_pages as int));
}

/// Appends the attributes `attr` to `out`.
fn append_attr(out: &mut String, attr: &AttributeFields)
    ensures
        final(out)@ == old(out)@ + attr_text(*attr),
{
    match attr.mem_attributes {
        MemAttributes::CacheableDRAM => out.append("C  "),
        MemAttributes::Device => out.append("Dev"),
    }
    out.append(" ");
    match attr.acc_perms {
        AccessPermissions::ReadOnly => out.append("RO"),
        AccessPermissions::ReadWrite => out.append("RW"),
    }
    out.append(" ");
    if attr.execute_never {
        out.append("XN");
    } else {
        out.append("X ");
    }
    assert(out@ =~= old(out)@ + attr_text(*attr));
}

impl MappingRecordEntry {
    /// The mapping as a line of text.
    pub fn render(&self) -> (r: String)
        requires
            self.virt_pages.wf(),
            self.phys_pages.wf(),
        ensures
            r@ == row_text(*self),
    {
        let mut out = String::new();
        append_range(&mut out, self.virt_pages.start.value, self.virt_pages.num_pages);
        out.append(" --> ");
        append_range(&mut out, self.phys_pages.start.value, self.phys_pages.num_pages);
        out.append(" | ");
        append_attr(&mut out, &self.attribute_fields);
        out.append(" | ");
        out.append(self.name);
        assert(out@ =~= row_text(*self));
        out
    }
}

/// The views of the lines `lines`.
pub open spec fn lines_text(lines: Seq<String>) -> Seq<Seq<char>> {
    Seq::new(lines.len(), |i: int| lines[i]@)
}

impl MappingRecord {
    /// The record as lines of text: the header, then one line for each
    /// mapping, oldest first. The record stays as it is.
    pub fn print(&self) -> (r: Vec<String>)
        requires
            self.wf(),
        ensures
            lines_text(r@) == record_text(self@),
    {
        let mut lines: Vec<String> = Vec::new();
        lines.push(
            "Virtual                                      Physical                                 Attr        Entity".to_owned(),
        );
        let mut i: usize = 0;
        while i < self.entries.len()
            invariant
                i <= self.entries@.len(),
                self.wf(),
                lines@.len() == i + 1,
                lines@[0]@ == header_text(),
                forall|k: int|
                    1 <= k <= i ==> (#[trigger] lines@[k])@ == row_text(self.entries@[k - 1]),
            decreases self.entries@.len() - i,
        {
            let line = self.entries[i].render();
            lines.push(line);
            i = i + 1;
        }
        proof {
            let rows = Seq::new(self@.len(), |j: int| row_text(self@[j]));
            assert(record_text(self@).len() == lines@.len());
            assert forall|k: int| 0 <= k < lines@.len() implies lines_text(lines@)[k]
                == record_text(self@)[k] by {
                if k > 0 {
                    assert(record_text(self@)[k] == rows[k - 1]);
                }
            }
            assert(lines_text(lines@) =~= record_text(self@));
        }
        lines
    }
}

} // verus!
