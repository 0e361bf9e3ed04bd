use vstd::prelude::*;
use vstd::string::StringSliceAdditionalSpecFns;

verus! {

/// Bytes of program memory of the ATmega328P.
pub const FLASH: usize = 0x8000;

/// Whether `b` is the ASCII code of a hexadecimal digit.
pub open spec fn is_hex(b: u8) -> bool {
    (0x30 <= b <= 0x39) || (0x41 <= b <= 0x46) || (0x61 <= b <= 0x66)
}

/// The value of a hexadecimal digit.
pub open spec fn digit(b: u8) -> int {
    if 0x30 <= b <= 0x39 {
        b - 0x30
    } else if 0x41 <= b <= 0x46 {
        b - 0x41 + 10
    } else {
        b - 0x61 + 10
    }
}

/// The value of the two hexadecimal digits at `at`.
pub open spec fn hex2(src: Seq<u8>, at: int) -> int {
    16 * digit(src[at]) + digit(src[at + 1])
}

/// The value of the four hexadecimal digits at `at`.
pub open spec fn hex4(src: Seq<u8>, at: int) -> int {
    256 * hex2(src, at) + hex2(src, at + 2)
}

/// Where the line that starts at `from` ends: at the next line feed, or at
/// the end of the text.
pub open spec fn line_end(src: Seq<u8>, from: int) -> int
    decreases src.len() - from,
{
    if from < 0 || from >= src.len() || src[from] == 0x0a {
        from
    } else {
        line_end(src, from + 1)
    }
}

/// The line from `start` to `end` is a record: it begins with a colon.
pub open spec fn is_record(src: Seq<u8>, start: int, end: int) -> bool {
    start < end && src[start] == 0x3a
}

/// The record at `start` is of type `00`, data.
pub open spec fn is_data(src: Seq<u8>, start: int) -> bool {
    src[start + 7] == 0x30 && src[start + 8] == 0x30
}

/// The record at `start` is of type `01`, end of file.
pub open spec fn is_eof(src: Seq<u8>, start: int) -> bool {
    src[start + 7] == 0x30 && src[start + 8] == 0x31
}

/// The record from `start` to `end` can be read: it is long enough to hold
/// its type; a data record holds hexadecimal digits for its byte count, its
/// address and as many data bytes as it counts, and those bytes fit into a
/// flash of `flash` bytes.
pub open spec fn record_ok(src: Seq<u8>, start: int, end: int, flash: int) -> bool {
    &&& end - start >= 9
    &&& is_data(src, start) ==> {
        &&& forall|i: int| start + 1 <= i < start + 7 ==> is_hex(#[trigger] src[i])
        &&& start + 9 + 2 * hex2(src, start + 1) <= end
        &&& forall|i: int|
            start + 9 <= i < start + 9 + 2 * hex2(src, start + 1) ==> is_hex(#[trigger] src[i])
        &&& hex4(src, start + 3) + hex2(src, start + 1) <= flash
    }
}

/// The image after the data record at `start` has been stored in it.
pub open spec fn apply_record(image: Seq<u8>, src: Seq<u8>, start: int) -> Seq<u8> {
    let count = hex2(src, start + 1);
    let addr = hex4(src, start + 3);
    Seq::new(
        image.len(),
        |j: int|
            if addr <= j < addr + count {
                hex2(src, start + 9 + 2 * (j - addr)) as u8
            } else {
                image[j]
            },
    )
}

/// Every line from `from` on, up to an end-of-file record, can be read.
pub open spec fn lines_ok(src: Seq<u8>, from: int, flash: int) -> bool
    decreases src.len() + 1 - from,
{
    if from < 0 || from > src.len() {
        true
    } else {
        proof {
            lemma_line_end(src, from);
        }
        let end = line_end(src, from);
        if is_record(src, from, end) {
            record_ok(src, from, end, flash) && (is_eof(src, from) || lines_ok(
                src,
                end + 1,
                flash,
            ))
        } else {
            lines_ok(src, end + 1, flash)
        }
    }
}

/// The image after the lines from `from` on have been read into it. Lines
/// are read in order; a data record is stored, an end-of-file record ends
/// the reading, and any other line is passed over. Checksums are not looked at.
pub open spec fn load_from(src: Seq<u8>, from: int, image: Seq<u8>) -> Seq<u8>
    decreases src.len() + 1 - from,
{
    if from < 0 || from > src.len() {
        image
    } else {
        proof {
            lemma_line_end(src, from);
        }
        let end = line_end(src, from);
        if is_record(src, from, end) && is_eof(src, from) {
            image
        } else if is_record(src, from, end) && is_data(src, from) {
            load_from(src, end + 1, apply_record(image, src, from))
        } else {
            load_from(src, end + 1, image)
        }
    }
}

/// An Intel HEX text that `load_hex` can read.
pub open spec fn hex_well_formed(src: Seq<u8>) -> bool {
    lines_ok(src, 0, FLASH as int)
}

/// The flash image that an Intel HEX text describes: `FLASH` bytes, zero
/// where no record stores anything.
pub open spec fn hex_image(src: Seq<u8>) -> Seq<u8> {
    load_from(src, 0, Seq::new(FLASH as nat, |i: int| 0u8))
}

pub proof fn lemma_line_end(src: Seq<u8>, from: int)
    requires
        0 <= from <= src.len(),
    ensures
        from <= line_end(src, from) <= src.len(),
        line_end(src, from) < src.len() ==> src[line_end(src, from)] == 0x0a,
        forall|i: int| from <= i < line_end(src, from) ==> src[i] != 0x0a,
    decreases src.len() - from,
{
    if from < src.len() && src[from] != 0x0a {
        lemma_line_end(src, from + 1);
    }
}

proof fn lemma_line_end_skip(src: Seq<u8>, from: int, to: int)
    requires
        0 <= from <= to <= src.len(),
        forall|i: int| from <= i < to ==> src[i] != 0x0a,
    ensures
        line_end(src, from) == line_end(src, to),
    decreases to - from,
{
    if from < to {
        lemma_line_end_skip(src, from + 1, to);
    }
}

fn hex_digit(b: u8) -> (v: u8)
    requires
        is_hex(b),
    ensures
        v == digit(b),
        v < 16,
{
    if 0x30 <= b && b <= 0x39 {
        b - 0x30
    } else if 0x41 <= b && b <= 0x46 {
        b - 0x41 + 10
    } else {
        b - 0x61 + 10
    }
}

fn hex_byte(bytes: &[u8], at: usize) -> (v: u8)
    requires
        at + 1 < bytes@.len(),
        is_hex(bytes@[at as int]),
        is_hex(bytes@[at + 1]),
    ensures
        v == hex2(bytes@, at as int),
{
    16 * hex_digit(bytes[at]) + hex_digit(bytes[at + 1])
}

fn store_record(prog: &mut Vec<u8>, bytes: &[u8], start: usize, end: usize)
    requires
        old(prog)@.len() == FLASH,
        start < end <= bytes@.len(),
        record_ok(bytes@, start as int, end as int, FLASH as int),
        is_data(bytes@, start as int),
    ensures
        final(prog)@ == apply_record(old(prog)@, bytes@, start as int),
        final(prog)@.len() == FLASH,
{
    assert(is_hex(bytes@[start + 1]) && is_hex(bytes@[start + 2]) && is_hex(bytes@[start + 3])
        && is_hex(bytes@[start + 4]) && is_hex(bytes@[start + 5]) && is_hex(bytes@[start + 6]));
    let count: usize = hex_byte(bytes, start + 1) as usize;
    let addr: usize = 256 * (hex_byte(bytes, start + 3) as usize) + hex_byte(
        bytes,
        start + 5,
    ) as usize;
    let mut i: usize = 0;
    while i < count
        invariant
            0 <= i <= count,
            count == hex2(bytes@, start + 1),
            addr == hex4(bytes@, start + 3),
            addr + count <= FLASH,
            start + 9 + 2 * count <= end <= bytes@.len(),
            forall|k: int| start + 9 <= k < start + 9 + 2 * count ==> is_hex(#[trigger] bytes@[k]),
            prog@.len() == FLASH,
            forall|j: int|
                0 <= j < FLASH ==> prog@[j] == (if addr <= j < addr + i {
                    hex2(bytes@, start + 9 + 2 * (j - addr)) as u8
                } else {
                    old(prog)@[j]
                }),
        decreases count - i,
    {
        let offset: usize = start + 9 + 2 * i;
        assert(is_hex(bytes@[offset as int]) && is_hex(bytes@[offset + 1]));
        let byte = hex_byte(bytes, offset);
        prog[addr + i] = byte;
        i += 1;
    }
    assert(prog@ =~= apply_record(old(prog)@, bytes@, start as int));
}

fn is_hex_digit(b: u8) -> (r: bool)
    ensures
        r == is_hex(b),
{
    (0x30 <= b && b <= 0x39) || (0x41 <= b && b <= 0x46) || (0x61 <= b && b <= 0x66)
}

fn digits_ok(bytes: &[u8], from: usize, to: usize) -> (ok: bool)
    requires
        from <= to <= bytes@.len(),
    ensures
        ok == forall|i: int| from <= i < to ==> is_hex(#[trigger] bytes@[i]),
{
    let mut i: usize = from;
    while i < to
        invariant
            from <= i <= to <= bytes@.len(),
            forall|k: int| from <= k < i ==> is_hex(#[trigger] bytes@[k]),
        decreases to - i,
    {
        if !is_hex_digit(bytes[i]) {
            return false;
        }
        i += 1;
    }
    true
}

fn record_ready(bytes: &[u8], start: usize, end: usize) -> (ok: bool)
    requires
        start < end <= bytes@.len(),
    ensures
        ok == record_ok(bytes@, start as int, end as int, FLASH as int),
{
    if end - start < 9 {
        return false;
    }
    if !(bytes[start + 7] == 0x30 && bytes[start + 8] == 0x30) {
        return true;
    }
    if !digits_ok(bytes, start + 1, start + 7) {
        return false;
    }
    assert(is_hex(bytes@[start + 1]) && is_hex(bytes@[start + 2]) && is_hex(bytes@[start + 3])
        && is_hex(bytes@[start + 4]) && is_hex(bytes@[start + 5]) && is_hex(bytes@[start + 6]));
    let count: usize = hex_byte(bytes, start + 1) as usize;
    if 2 * count > end - start - 9 {
        return false;
    }
    if !digits_ok(bytes, start + 9, start + 9 + 2 * count) {
        return false;
    }
    let addr: usize = 256 * (hex_byte(bytes, start + 3) as usize) + hex_byte(
        bytes,
        start + 5,
    ) as usize;
    addr + count <= FLASH
}

/// Whether `load_hex` can read the text.
pub fn hex_loadable(source: &str) -> (ok: bool)
    ensures
        ok == hex_well_formed(source.spec_bytes()),
{
    let bytes = source.as_bytes();
    let n: usize = bytes.len();
    let mut pos: usize = 0;
    loop
        invariant
            n == bytes@.len(),
            bytes@ == source.spec_bytes(),
            0 <= pos <= n,
            lines_ok(bytes@, pos as int, FLASH as int) == hex_well_formed(bytes@),
        decreases n - pos,
    {
        let mut end: usize = pos;
        while end < n && bytes[end] != 0x0a
            invariant
                n == bytes@.len(),
                pos <= end <= n,
                forall|i: int| pos <= i < end ==> bytes@[i] != 0x0a,
            decreases n - end,
        {
            end += 1;
        }
        proof {
            lemma_line_end_skip(bytes@, pos as int, end as int);
            lemma_line_end(bytes@, end as int);
            assert(line_end(bytes@, pos as int) == end);
        }
        if pos < end && bytes[pos] == 0x3a {
            if !record_ready(bytes, pos, end) {
                return false;
            }
            if bytes[pos + 7] == 0x30 && bytes[pos + 8] == 0x31 {
                return true;
            }
        }
        assert(lines_ok(bytes@, pos as int, FLASH as int) == lines_ok(
            bytes@,
            end + 1,
            FLASH as int,
        ));
        if end == n {
            return true;
        }
        pos = end + 1;
    }
}

/// Reads an Intel HEX text into a flash image.
pub fn load_hex(source: &str) -> (prog: Vec<u8>)
    requires
        hex_well_formed(source.spec_bytes()),
    ensures
        prog@ == hex_image(source.spec_bytes()),
        prog@.len() == FLASH,
{
    let bytes = source.as_bytes();
    let n: usize = bytes.len();
    let mut prog: Vec<u8> = vec![0u8; FLASH];
    assert(prog@ =~= Seq::new(FLASH as nat, |i: int| 0u8));
    let mut pos: usize = 0;
    loop
        invariant
            n == bytes@.len(),
            bytes@ == source.spec_bytes(),
            0 <= pos <= n,
            prog@.len() == FLASH,
            lines_ok(bytes@, pos as int, FLASH as int),
            load_from(bytes@, pos as int, prog@) == hex_image(bytes@),
        decreases n - pos,
    {
        let mut end: usize = pos;
        while end < n && bytes[end] != 0x0a
            invariant
                n == bytes@.len(),
                pos <= end <= n,
                forall|i: int| pos <= i < end ==> bytes@[i] != 0x0a,
            decreases n - end,
        {
            end += 1;
        }
        let ghost before = prog@;
        proof {
            lemma_line_end_skip(bytes@, pos as int, end as int);
            lemma_line_end(bytes@, end as int);
            assert(line_end(bytes@, pos as int) == end);
        }
        if pos < end && bytes[pos] == 0x3a {
            let t0 = bytes[pos + 7];
            let t1 = bytes[pos + 8];
            if t0 == 0x30 && t1 == 0x31 {
                assert(load_from(bytes@, pos as int, before) == before);
                return prog;
            }
            if t0 == 0x30 && t1 == 0x30 {
                store_record(&mut prog, bytes, pos, end);
            }
        }
        assert(load_from(bytes@, pos as int, before) == load_from(bytes@, end + 1, prog@));
        assert(lines_ok(bytes@, end + 1, FLASH as int));
        if end == n {
            assert(load_from(bytes@, end + 1, prog@) == prog@);
            return prog;
        }
        pos = end + 1;
    }
}

} // verus!
