//! The BSDIFF40 patch engine.
//!
//! A patch blob is a 32-byte header — the ASCII magic `BSDIFF40`, then the
//! compressed lengths `X` and `Y` of the control and diff streams and the
//! length of the new file, each an 8-byte sign-magnitude integer — followed
//! by three bzip2 streams at offsets `32`, `32 + X` and `32 + X + Y`: the
//! control triples, the diff bytes and the extra bytes.
//!
//! [`apply_patch`] decodes the three streams up front and then walks the
//! control triples `(a, b, c)`: take `a` diff bytes, each added (wrapping,
//! modulo 256) to the byte of the old file under the old-file cursor; then
//! copy `b` extra bytes; then move the old-file cursor by the signed offset
//! `c`. The new file is complete when exactly `newsize` bytes have been
//! produced.

use vstd::prelude::*;

use crate::bz::{bunzip_of, decompress};
use crate::codec::{lemma_offtin_bounds, offtin, offtin_spec};
use crate::error::Error;

verus! {

/// Does the blob start with the ASCII magic `BSDIFF40`?
pub open spec fn has_magic(p: Seq<u8>) -> bool {
    &&& p.len() >= 8
    &&& p[0] == 0x42
    &&& p[1] == 0x53
    &&& p[2] == 0x44
    &&& p[3] == 0x49
    &&& p[4] == 0x46
    &&& p[5] == 0x46
    &&& p[6] == 0x34
    &&& p[7] == 0x30
}

/// The bytes of the blob from offset `off` to its end; empty when `off` is
/// past the end, as a stream positioned past the end of the file reads
/// nothing.
pub open spec fn stream_at(p: Seq<u8>, off: int) -> Seq<u8>
    recommends
        0 <= off,
{
    if off >= p.len() {
        Seq::<u8>::empty()
    } else {
        p.skip(off)
    }
}

/// 8-bit wrapping addition, as the diff bytes are added to the old file.
pub open spec fn byte_add(x: u8, y: u8) -> u8 {
    if x + y > 255 {
        (x + y - 256) as u8
    } else {
        (x + y) as u8
    }
}

/// The byte of the old file at `i`; positions outside the file contribute
/// nothing.
pub open spec fn old_at(old: Seq<u8>, i: int) -> u8 {
    if 0 <= i < old.len() {
        old[i]
    } else {
        0
    }
}

/// One walk of the control stream, `acc` bytes of the new file already
/// produced and the old-file cursor at `oldpos`. Mirrors the engine's loop:
/// each step consumes one 24-byte control triple, `a` diff bytes and `b`
/// extra bytes.
pub open spec fn patch_loop(
    ctrl: Seq<u8>,
    diff: Seq<u8>,
    extra: Seq<u8>,
    old: Seq<u8>,
    newsize: int,
    acc: Seq<u8>,
    oldpos: int,
) -> Result<Seq<u8>, Error>
    decreases ctrl.len(),
{
    if acc.len() >= newsize {
        Ok(acc)
    } else if ctrl.len() < 24 {
        Err(Error::DecodeError)
    } else {
        let a = offtin_spec(ctrl.subrange(0, 8));
        let b = offtin_spec(ctrl.subrange(8, 16));
        let c = offtin_spec(ctrl.subrange(16, 24));
        if a < 0 || acc.len() + a > newsize {
            Err(Error::PatchSanityCheckFail(0))
        } else if diff.len() < a {
            Err(Error::DecodeError)
        } else {
            let merged = acc + Seq::new(
                a as nat,
                |i: int| byte_add(diff[i], old_at(old, oldpos + i)),
            );
            if b < 0 || merged.len() + b > newsize {
                Err(Error::PatchSanityCheckFail(1))
            } else if extra.len() < b {
                Err(Error::DecodeError)
            } else {
                patch_loop(
                    ctrl.skip(24),
                    diff.skip(a),
                    extra.skip(b),
                    old,
                    newsize,
                    merged + extra.subrange(0, b),
                    oldpos + a + c,
                )
            }
        }
    }
}

/// What applying a patch blob to the old file yields: the new file bytes,
/// or the first failure. The header is validated, then the three streams
/// are decoded in full, then the control triples are walked.
pub open spec fn apply_spec(patch: Seq<u8>, old: Seq<u8>) -> Result<Seq<u8>, Error> {
    if patch.len() < 32 {
        Err(Error::FileReadError)
    } else if !has_magic(patch) {
        Err(Error::BadPatchVersion)
    } else {
        let x = offtin_spec(patch.subrange(8, 16));
        let y = offtin_spec(patch.subrange(16, 24));
        let newsize = offtin_spec(patch.subrange(24, 32));
        if x < 0 || y < 0 || newsize < 0 {
            Err(Error::BadPatchSize)
        } else if newsize == 0 {
            Ok(Seq::<u8>::empty())
        } else {
            match bunzip_of(stream_at(patch, 32)) {
                None => Err(Error::DecodeError),
                Some(ctrl) => match bunzip_of(stream_at(patch, 32 + x)) {
                    None => Err(Error::DecodeError),
                    Some(diff) => match bunzip_of(stream_at(patch, 32 + x + y)) {
                        None => Err(Error::DecodeError),
                        Some(extra) => patch_loop(
                            ctrl,
                            diff,
                            extra,
                            old,
                            newsize,
                            Seq::<u8>::empty(),
                            0,
                        ),
                    },
                },
            }
        }
    }
}

/// A walk that starts within bounds and succeeds produces exactly
/// `newsize` bytes: each step is sanity-checked against the bound, and the
/// walk only ends once the bound is reached.
proof fn lemma_patch_loop_len(
    ctrl: Seq<u8>,
    diff: Seq<u8>,
    extra: Seq<u8>,
    old: Seq<u8>,
    newsize: int,
    acc: Seq<u8>,
    oldpos: int,
)
    requires
        acc.len() <= newsize,
    ensures
        match patch_loop(ctrl, diff, extra, old, newsize, acc, oldpos) {
            Ok(r) => r.len() == newsize,
            Err(_) => true,
        },
    decreases ctrl.len(),
{
    if acc.len() >= newsize {
    } else if ctrl.len() < 24 {
    } else {
        let a = offtin_spec(ctrl.subrange(0, 8));
        let b = offtin_spec(ctrl.subrange(8, 16));
        let c = offtin_spec(ctrl.subrange(16, 24));
        if a < 0 || acc.len() + a > newsize {
        } else if diff.len() < a {
        } else {
            let merged = acc + Seq::new(
                a as nat,
                |i: int| byte_add(diff[i], old_at(old, oldpos + i)),
            );
            if b < 0 || merged.len() + b > newsize {
            } else if extra.len() < b {
            } else {
                lemma_patch_loop_len(
                    ctrl.skip(24),
                    diff.skip(a),
                    extra.skip(b),
                    old,
                    newsize,
                    merged + extra.subrange(0, b),
                    oldpos + a + c,
                );
            }
        }
    }
}

/// Law: a successful application produces exactly the number of bytes the
/// patch header states as the new file's length.
pub proof fn lemma_apply_produces_newsize(patch: Seq<u8>, old: Seq<u8>)
    ensures
        match apply_spec(patch, old) {
            Ok(n) => patch.len() >= 32 && n.len() == offtin_spec(patch.subrange(24, 32)),
            Err(_) => true,
        },
{
    if patch.len() >= 32 && has_magic(patch) {
        let x = offtin_spec(patch.subrange(8, 16));
        let y = offtin_spec(patch.subrange(16, 24));
        let newsize = offtin_spec(patch.subrange(24, 32));
        if x >= 0 && y >= 0 && newsize > 0 {
            match bunzip_of(stream_at(patch, 32)) {
                None => {},
                Some(ctrl) => match bunzip_of(stream_at(patch, 32 + x)) {
                    None => {},
                    Some(diff) => match bunzip_of(stream_at(patch, 32 + x + y)) {
                        None => {},
                        Some(extra) => {
                            lemma_patch_loop_len(
                                ctrl,
                                diff,
                                extra,
                                old,
                                newsize,
                                Seq::<u8>::empty(),
                                0,
                            );
                        },
                    },
                },
            }
        }
    }
}

/// Does the executable result agree with the specified one, byte for byte
/// on success and error for error on failure?
pub open spec fn result_agrees(r: Result<Vec<u8>, Error>, s: Result<Seq<u8>, Error>) -> bool {
    match (r, s) {
        (Ok(v), Ok(sq)) => v@ == sq,
        (Err(e), Err(f)) => e == f,
        _ => false,
    }
}

/// Applies a BSDIFF40 patch blob to the old file bytes and produces the new
/// file bytes, or the first failure: a blob shorter than its header, a bad
/// magic, a negative length field, an undecodable or short stream, or a
/// control triple that oversteps the new file.
pub fn apply_patch(patch: &[u8], old: &[u8]) -> (r: Result<Vec<u8>, Error>)
    ensures
        result_agrees(r, apply_spec(patch@, old@)),
{
    if patch.len() < 32 {
        return Err(Error::FileReadError);
    }
    let magic_ok = patch[0] == 0x42 && patch[1] == 0x53 && patch[2] == 0x44 && patch[3] == 0x49
        && patch[4] == 0x46 && patch[5] == 0x46 && patch[6] == 0x34 && patch[7] == 0x30;
    if !magic_ok {
        return Err(Error::BadPatchVersion);
    }
    let x = offtin(vstd::slice::slice_subrange(patch, 8, 16));
    let y = offtin(vstd::slice::slice_subrange(patch, 16, 24));
    let newsize = offtin(vstd::slice::slice_subrange(patch, 24, 32));
    proof {
        lemma_offtin_bounds(patch@.subrange(8, 16));
        lemma_offtin_bounds(patch@.subrange(16, 24));
        lemma_offtin_bounds(patch@.subrange(24, 32));
    }
    if x < 0 || y < 0 || newsize < 0 {
        return Err(Error::BadPatchSize);
    }
    if newsize == 0 {
        let empty: Vec<u8> = Vec::new();
        proof {
            assert(empty@ =~= Seq::<u8>::empty());
        }
        return Ok(empty);
    }
    let ghost ns_g: int = newsize as int;
    let ns_u: u64 = newsize as u64;

    // The three streams, positioned by the header; an offset past the end
    // of the blob leaves a stream empty.
    let o2big: u128 = 32u128 + (x as u128);
    let o3big: u128 = 32u128 + (x as u128) + (y as u128);
    let o2: usize = if o2big >= (patch.len() as u128) {
        patch.len()
    } else {
        32 + (x as usize)
    };
    let o3: usize = if o3big >= (patch.len() as u128) {
        patch.len()
    } else {
        (o3big as usize)
    };
    let ctrl_slice = vstd::slice::slice_subrange(patch, 32, patch.len());
    let diff_slice = vstd::slice::slice_subrange(patch, o2, patch.len());
    let extra_slice = vstd::slice::slice_subrange(patch, o3, patch.len());
    proof {
        assert(ctrl_slice@ =~= stream_at(patch@, 32));
        assert(diff_slice@ =~= stream_at(patch@, 32 + x));
        assert(extra_slice@ =~= stream_at(patch@, 32 + x + y));
    }
    let ctrl = match decompress(ctrl_slice) {
        Ok(v) => v,
        Err(e) => {
            return Err(e);
        },
    };
    let diff = match decompress(diff_slice) {
        Ok(v) => v,
        Err(e) => {
            return Err(e);
        },
    };
    let extra = match decompress(extra_slice) {
        Ok(v) => v,
        Err(e) => {
            return Err(e);
        },
    };

    let dlen = diff.len();
    let elen = extra.len();
    let mut new_: Vec<u8> = Vec::new();
    let mut ci: usize = 0;
    let mut di: usize = 0;
    let mut ei: usize = 0;
    let mut oldpos: i128 = 0;
    proof {
        assert(new_@ =~= Seq::<u8>::empty());
        assert(ctrl@.skip(0) =~= ctrl@);
        assert(diff@.skip(0) =~= diff@);
        assert(extra@.skip(0) =~= extra@);
    }
    while (new_.len() as u64) < ns_u
        invariant
            0 < ns_g < 0x8000_0000_0000_0000,
            ns_u == ns_g,
            ci <= ctrl@.len(),
            di <= diff@.len(),
            ei <= extra@.len(),
            dlen == diff@.len(),
            elen == extra@.len(),
            new_@.len() <= ns_g,
            -((ci as int) * 0x1000_0000_0000_0000) <= oldpos as int,
            oldpos as int <= (ci as int) * 0x1000_0000_0000_0000,
            apply_spec(patch@, old@) == patch_loop(
                ctrl@,
                diff@,
                extra@,
                old@,
                ns_g,
                Seq::<u8>::empty(),
                0,
            ),
            patch_loop(
                ctrl@.skip(ci as int),
                diff@.skip(di as int),
                extra@.skip(ei as int),
                old@,
                ns_g,
                new_@,
                oldpos as int,
            ) == patch_loop(ctrl@, diff@, extra@, old@, ns_g, Seq::<u8>::empty(), 0),
        decreases ctrl@.len() - ci,
    {
        let ghost pre_ctrl = ctrl@.skip(ci as int);
        let ghost pre_diff = diff@.skip(di as int);
        let ghost pre_extra = extra@.skip(ei as int);
        let ghost pre_acc = new_@;
        let ghost pre_oldpos = oldpos as int;

        // One control triple.
        if ctrl.len() - ci < 24 {
            return Err(Error::DecodeError);
        }
        let a = offtin(vstd::slice::slice_subrange(ctrl.as_slice(), ci, ci + 8));
        let b = offtin(vstd::slice::slice_subrange(ctrl.as_slice(), ci + 8, ci + 16));
        let c = offtin(vstd::slice::slice_subrange(ctrl.as_slice(), ci + 16, ci + 24));
        proof {
            assert(ctrl@.subrange(ci as int, ci as int + 8) =~= pre_ctrl.subrange(0, 8));
            assert(ctrl@.subrange(ci as int + 8, ci as int + 16) =~= pre_ctrl.subrange(8, 16));
            assert(ctrl@.subrange(ci as int + 16, ci as int + 24) =~= pre_ctrl.subrange(16, 24));
            lemma_offtin_bounds(pre_ctrl.subrange(0, 8));
            lemma_offtin_bounds(pre_ctrl.subrange(8, 16));
            lemma_offtin_bounds(pre_ctrl.subrange(16, 24));
        }

        if a < 0 || new_.len() as u64 + (a as u64) > ns_u {
            return Err(Error::PatchSanityCheckFail(0));
        }
        if ((diff.len() - di) as u64) < (a as u64) {
            return Err(Error::DecodeError);
        }
        let a_us = a as usize;

        // Diff block: `a` bytes, each added to the old file where the
        // cursor lands inside it.
        let mut j: usize = 0;
        while j < a_us
            invariant
                j <= a_us,
                a_us == a,
                0 <= a < 0x8000_0000_0000_0000,
                di + a_us <= dlen,
                dlen == diff@.len(),
                oldpos == pre_oldpos,
                -0x2000_0000_0000_0000_0000_0000_0000_0000 <= pre_oldpos
                    <= 0x2000_0000_0000_0000_0000_0000_0000_0000,
                pre_diff == diff@.skip(di as int),
                new_@ == pre_acc + Seq::new(
                    j as nat,
                    |i: int| byte_add(pre_diff[i], old_at(old@, pre_oldpos + i)),
                ),
            decreases a_us - j,
        {
            let dbyte = diff[di + j];
            let oidx: i128 = oldpos + (j as i128);
            let ob: u8 = if oidx >= 0 && oidx < (old.len() as i128) {
                old[oidx as usize]
            } else {
                0
            };
            new_.push(dbyte.wrapping_add(ob));
            proof {
                assert(pre_diff[j as int] == diff@[di + j]);
                assert(new_@ =~= pre_acc + Seq::new(
                    (j + 1) as nat,
                    |i: int| byte_add(pre_diff[i], old_at(old@, pre_oldpos + i)),
                ));
            }
            j += 1;
        }
        let ghost merged = new_@;
        di += a_us;
        oldpos = oldpos + (a as i128);

        if b < 0 || new_.len() as u64 + (b as u64) > ns_u {
            return Err(Error::PatchSanityCheckFail(1));
        }
        if ((extra.len() - ei) as u64) < (b as u64) {
            return Err(Error::DecodeError);
        }
        let b_us = b as usize;

        // Extra block: `b` bytes copied as they are.
        let mut k: usize = 0;
        while k < b_us
            invariant
                k <= b_us,
                b_us == b,
                ei + b_us <= elen,
                elen == extra@.len(),
                pre_extra == extra@.skip(ei as int),
                new_@ == merged + pre_extra.subrange(0, k as int),
            decreases b_us - k,
        {
            let ebyte = extra[ei + k];
            new_.push(ebyte);
            proof {
                assert(pre_extra[k as int] == extra@[ei + k]);
                assert(new_@ =~= merged + pre_extra.subrange(0, k as int + 1));
            }
            k += 1;
        }
        ei += b_us;
        oldpos = oldpos + (c as i128);
        ci += 24;

        proof {
            assert(ctrl@.skip(ci as int) =~= pre_ctrl.skip(24));
            assert(diff@.skip(di as int) =~= pre_diff.skip(a as int));
            assert(extra@.skip(ei as int) =~= pre_extra.skip(b as int));
            assert(merged =~= pre_acc + Seq::new(
                a as nat,
                |i: int| byte_add(pre_diff[i], old_at(old@, pre_oldpos + i)),
            ));
            assert(new_@ =~= merged + pre_extra.subrange(0, b as int));
            assert(patch_loop(pre_ctrl, pre_diff, pre_extra, old@, ns_g, pre_acc, pre_oldpos)
                == patch_loop(
                ctrl@.skip(ci as int),
                diff@.skip(di as int),
                extra@.skip(ei as int),
                old@,
                ns_g,
                new_@,
                oldpos as int,
            ));
        }
    }
    Ok(new_)
}

} // verus!
