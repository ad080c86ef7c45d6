//! A byte-level model of a cooperating device, and the law that flashing an
//! image and reading the same range back yields the image.
//!
//! The model mirrors the flashing engine exactly. Staging acts on the buffer
//! as one store at byte 0: the engine's staging loop sends each load of at
//! most 25 bytes to the buffer page and offset whose flat position equals the
//! load's position in the chunk. A flash write of `n` pages copies the first
//! `n` buffer pages over flash at the chunk's byte address, and the engine
//! walks the image in chunks of at most the buffer capacity. A linear read
//! returns the flash bytes of the requested range.

use vstd::prelude::*;

verus! {

/// `mem` with `data` written at byte position `at`.
pub open spec fn store_bytes(mem: Seq<u8>, at: int, data: Seq<u8>) -> Seq<u8>
    recommends
        0 <= at,
        at + data.len() <= mem.len(),
{
    Seq::new(
        mem.len(),
        |i: int|
            if at <= i < at + data.len() {
                data[i - at]
            } else {
                mem[i]
            },
    )
}

/// Number of whole pages of `ps` bytes that cover `len` bytes.
pub open spec fn pages_covering(len: int, ps: int) -> int
    recommends
        ps >= 1,
{
    (len + ps - 1) / ps
}

/// One chunk of the engine on a cooperating device: stage `chunk` into the
/// staging buffer from byte 0, then commit the pages covering it to flash at
/// byte address `addr` (the start of a flash page). Returns the flash and the
/// buffer after the commit.
pub open spec fn commit_chunk(
    flash: Seq<u8>,
    buffer: Seq<u8>,
    ps: int,
    addr: int,
    chunk: Seq<u8>,
) -> (Seq<u8>, Seq<u8>) {
    let buffer2 = store_bytes(buffer, 0, chunk);
    let flash2 = store_bytes(
        flash,
        addr,
        buffer2.take(pages_covering(chunk.len() as int, ps) * ps),
    );
    (flash2, buffer2)
}

/// The whole flashing engine on a cooperating device: walk `image` in chunks
/// of at most the buffer capacity, committing each chunk at the running byte
/// address.
pub open spec fn flash_model(
    flash: Seq<u8>,
    buffer: Seq<u8>,
    ps: int,
    addr: int,
    image: Seq<u8>,
) -> Seq<u8>
    decreases image.len(),
{
    if image.len() == 0 || buffer.len() == 0 {
        flash
    } else {
        let c = vstd::math::min(image.len() as int, buffer.len() as int);
        let staged = commit_chunk(flash, buffer, ps, addr, image.take(c));
        flash_model(staged.0, staged.1, ps, addr + c, image.skip(c))
    }
}

/// What a linear read of `len` bytes at byte address `addr` returns on a
/// cooperating device.
pub open spec fn read_model(flash: Seq<u8>, addr: int, len: int) -> Seq<u8>
    recommends
        0 <= addr,
        0 <= len,
        addr + len <= flash.len(),
{
    flash.subrange(addr, addr + len)
}

/// The whole pages covering `len` bytes reach at least `len`, and no further
/// than any whole number `m` of pages that `len` fits in.
proof fn lemma_pages_covering_bounds(len: int, ps: int, m: int)
    requires
        ps >= 1,
        0 <= len,
        len <= m * ps,
    ensures
        len <= pages_covering(len, ps) * ps <= m * ps,
{
    let n = pages_covering(len, ps);
    vstd::arithmetic::div_mod::lemma_fundamental_div_mod(len + ps - 1, ps);
    vstd::arithmetic::div_mod::lemma_mod_bound(len + ps - 1, ps);
    let r = (len + ps - 1) % ps;
    assert(len <= n * ps && n * ps <= m * ps) by (nonlinear_arith)
        requires
            ps >= 1,
            0 <= len,
            len <= m * ps,
            len + ps - 1 == ps * n + r,
            0 <= r < ps,
    ;
}

/// Law: on a cooperating device, flashing `image` at a page-aligned byte
/// address that leaves room for the whole image, and then reading the same
/// range back, yields `image`; flash below the written range is untouched.
pub proof fn lemma_flash_then_read_round_trip(
    flash: Seq<u8>,
    buffer: Seq<u8>,
    ps: int,
    addr: int,
    image: Seq<u8>,
)
    requires
        ps >= 1,
        buffer.len() >= 1,
        buffer.len() as int % ps == 0,
        0 <= addr,
        addr % ps == 0,
        addr + image.len() <= flash.len(),
        flash.len() as int % ps == 0,
    ensures
        flash_model(flash, buffer, ps, addr, image).len() == flash.len(),
        read_model(flash_model(flash, buffer, ps, addr, image), addr, image.len() as int)
            == image,
        forall|i: int|
            0 <= i < addr ==> flash_model(flash, buffer, ps, addr, image)[i] == flash[i],
    decreases image.len(),
{
    let result = flash_model(flash, buffer, ps, addr, image);
    if image.len() == 0 {
        assert(read_model(flash, addr, 0) =~= image);
    } else {
        let b = buffer.len() as int;
        let fl = flash.len() as int;
        let c = vstd::math::min(image.len() as int, b);
        let chunk = image.take(c);
        let buffer2 = store_bytes(buffer, 0, chunk);
        let n = pages_covering(c, ps);
        let written = buffer2.take(n * ps);
        vstd::arithmetic::div_mod::lemma_fundamental_div_mod(b, ps);
        assert((b / ps) * ps == ps * (b / ps)) by (nonlinear_arith);
        lemma_pages_covering_bounds(c, ps, b / ps);
        assert(n * ps <= b);
        vstd::arithmetic::div_mod::lemma_fundamental_div_mod(fl, ps);
        vstd::arithmetic::div_mod::lemma_fundamental_div_mod(addr, ps);
        assert(ps * (fl / ps - addr / ps) == fl - addr) by (nonlinear_arith)
            requires
                ps >= 1,
                fl == ps * (fl / ps),
                addr == ps * (addr / ps),
        ;
        assert((fl / ps - addr / ps) * ps == ps * (fl / ps - addr / ps)) by (nonlinear_arith);
        lemma_pages_covering_bounds(c, ps, fl / ps - addr / ps);
        let flash2 = store_bytes(flash, addr, written);
        assert(commit_chunk(flash, buffer, ps, addr, chunk) == (flash2, buffer2));
        assert(flash2.len() == fl);
        assert forall|j: int| 0 <= j < c implies flash2[addr + j] == image[j] by {
            assert(flash2[addr + j] == written[j]);
            assert(written[j] == buffer2[j]);
            assert(buffer2[j] == chunk[j]);
        }
        if c == image.len() {
            assert(image.skip(c).len() == 0);
            assert(flash_model(flash2, buffer2, ps, addr + c, image.skip(c)) == flash2);
            assert(result == flash2);
            assert(read_model(result, addr, c) =~= image);
            assert(forall|i: int| 0 <= i < addr ==> result[i] == flash[i]);
        } else {
            assert(c == b);
            assert((addr + c) % ps == 0 && (addr + c) / ps == addr / ps + b / ps) by {
                assert(addr + b == (addr / ps + b / ps) * ps + 0) by (nonlinear_arith)
                    requires
                        b == ps * (b / ps),
                        addr == ps * (addr / ps),
                ;
                vstd::arithmetic::div_mod::lemma_fundamental_div_mod_converse(
                    addr + b,
                    ps,
                    addr / ps + b / ps,
                    0,
                );
            }
            assert(buffer2.len() == b);
            lemma_flash_then_read_round_trip(flash2, buffer2, ps, addr + c, image.skip(c));
            let rest = flash_model(flash2, buffer2, ps, addr + c, image.skip(c));
            assert(result == rest);
            let len = image.len() as int;
            assert forall|j: int| 0 <= j < len implies result[addr + j] == image[j] by {
                if j < c {
                    assert(rest[addr + j] == flash2[addr + j]);
                } else {
                    assert(read_model(rest, addr + c, len - c)[j - c] == rest[addr + j]);
                    assert(image.skip(c)[j - c] == image[j]);
                }
            }
            assert(read_model(result, addr, len) =~= image);
            assert forall|i: int| 0 <= i < addr implies result[i] == flash[i] by {
                assert(rest[i] == flash2[i]);
                assert(flash2[i] == flash[i]);
            }
        }
    }
}

} // verus!
