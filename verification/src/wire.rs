//! Byte serialization of diagnostic records.
//!
//! The host forwards diagnostics outside the process, so a record has one
//! fixed wire shape: integers as eight little-endian bytes, booleans as one
//! byte, text as a byte count followed by its UTF-8 bytes, an optional text
//! as a presence byte followed by the text when present, and the frames as
//! a count followed by the frames in order. Serialization and parsing are
//! exact inverses: parsing a serialized record yields the record back, and
//! whatever parses successfully is the serialization of what came out.

use vstd::prelude::*;
use vstd::bytes::{
    lemma_auto_spec_u64_to_from_le_bytes,
    spec_u64_from_le_bytes,
    spec_u64_to_le_bytes,
    u64_from_le_bytes,
    u64_to_le_bytes,
};
use vstd::utf8::{decode_utf8, encode_utf8, valid_utf8};
use vstd::string::StrSliceExecFns;
use crate::diagnostic::{DiagnosticRecord, FrameView, RecordView, StackFrame};

verus! {

/// The wire bytes of one unsigned integer.
pub open spec fn spec_enc_u64(x: u64) -> Seq<u8> {
    spec_u64_to_le_bytes(x)
}

/// The wire bytes of one boolean.
pub open spec fn spec_enc_bool(b: bool) -> Seq<u8> {
    seq![if b { 1u8 } else { 0u8 }]
}

/// The wire bytes of one text: its UTF-8 byte count, then those bytes.
pub open spec fn spec_enc_str(s: Seq<char>) -> Seq<u8> {
    spec_enc_u64(encode_utf8(s).len() as u64) + encode_utf8(s)
}

/// The wire bytes of one optional text: a presence byte, then the text when
/// present.
pub open spec fn spec_enc_opt_str(s: Option<Seq<char>>) -> Seq<u8> {
    match s {
        Some(t) => spec_enc_bool(true) + spec_enc_str(t),
        None => spec_enc_bool(false),
    }
}

/// The wire bytes of one stack frame.
pub open spec fn spec_enc_frame(f: FrameView) -> Seq<u8> {
    spec_enc_u64(f.line) + spec_enc_u64(f.column) + spec_enc_opt_str(f.function_name)
        + spec_enc_str(f.script_name) + spec_enc_bool(f.is_eval) + spec_enc_bool(f.is_constructor)
        + spec_enc_bool(f.is_internal)
}

/// The wire bytes of a run of stack frames, in order.
pub open spec fn spec_enc_frames(frames: Seq<FrameView>) -> Seq<u8>
    decreases frames.len(),
{
    if frames.len() == 0 {
        Seq::<u8>::empty()
    } else {
        spec_enc_frame(frames[0]) + spec_enc_frames(frames.drop_first())
    }
}

/// The wire bytes of a whole diagnostic record.
pub open spec fn spec_enc_record(v: RecordView) -> Seq<u8> {
    spec_enc_str(v.message) + spec_enc_str(v.resource_name) + spec_enc_str(v.source_line)
        + spec_enc_u64(v.line_number) + spec_enc_u64(v.start_position) + spec_enc_u64(
        v.end_position,
    ) + spec_enc_u64(v.error_level) + spec_enc_u64(v.start_column) + spec_enc_u64(v.end_column)
        + spec_enc_bool(v.is_shared_cross_origin) + spec_enc_bool(v.is_opaque) + spec_enc_u64(
        v.frames.len() as u64,
    ) + spec_enc_frames(v.frames)
}

/// Parses one integer from the front of `b`: the value and what remains.
pub open spec fn spec_dec_u64(b: Seq<u8>) -> Option<(u64, Seq<u8>)> {
    if b.len() >= 8 {
        Some((spec_u64_from_le_bytes(b.take(8)), b.skip(8)))
    } else {
        None
    }
}

/// Parses one boolean from the front of `b`; only the two byte values the
/// encoder writes are accepted.
pub open spec fn spec_dec_bool(b: Seq<u8>) -> Option<(bool, Seq<u8>)> {
    if b.len() >= 1 && (b[0] == 0u8 || b[0] == 1u8) {
        Some((b[0] == 1u8, b.skip(1)))
    } else {
        None
    }
}

/// Parses one text from the front of `b`: a byte count, then that many
/// bytes of valid UTF-8.
pub open spec fn spec_dec_str(b: Seq<u8>) -> Option<(Seq<char>, Seq<u8>)> {
    match spec_dec_u64(b) {
        Some((n, rest)) => {
            if n <= rest.len() && valid_utf8(rest.take(n as int)) {
                Some((decode_utf8(rest.take(n as int)), rest.skip(n as int)))
            } else {
                None
            }
        }
        None => None,
    }
}

/// Parses one optional text from the front of `b`.
pub open spec fn spec_dec_opt_str(b: Seq<u8>) -> Option<(Option<Seq<char>>, Seq<u8>)> {
    match spec_dec_bool(b) {
        Some((present, rest)) => {
            if present {
                match spec_dec_str(rest) {
                    Some((s, rest2)) => Some((Some(s), rest2)),
                    None => None,
                }
            } else {
                Some((None, rest))
            }
        }
        None => None,
    }
}

/// Parses one stack frame from the front of `b`.
pub open spec fn spec_dec_frame(b: Seq<u8>) -> Option<(FrameView, Seq<u8>)> {
    match spec_dec_u64(b) {
        Some((line, b1)) => match spec_dec_u64(b1) {
            Some((column, b2)) => match spec_dec_opt_str(b2) {
                Some((function_name, b3)) => match spec_dec_str(b3) {
                    Some((script_name, b4)) => match spec_dec_bool(b4) {
                        Some((is_eval, b5)) => match spec_dec_bool(b5) {
                            Some((is_constructor, b6)) => match spec_dec_bool(b6) {
                                Some((is_internal, b7)) => Some(
                                    (
                                        FrameView {
                                            line,
                                            column,
                                            function_name,
                                            script_name,
                                            is_eval,
                                            is_constructor,
                                            is_internal,
                                        },
                                        b7,
                                    ),
                                ),
                                None => None,
                            },
                            None => None,
                        },
                        None => None,
                    },
                    None => None,
                },
                None => None,
            },
            None => None,
        },
        None => None,
    }
}

/// Parses `count` stack frames from the front of `b`, in order.
pub open spec fn spec_dec_frames(b: Seq<u8>, count: nat) -> Option<(Seq<FrameView>, Seq<u8>)>
    decreases count,
{
    if count == 0 {
        Some((Seq::<FrameView>::empty(), b))
    } else {
        match spec_dec_frame(b) {
            Some((f, rest)) => match spec_dec_frames(rest, (count - 1) as nat) {
                Some((fs, rest2)) => Some((seq![f] + fs, rest2)),
                None => None,
            },
            None => None,
        }
    }
}

/// Parses one whole diagnostic record from the front of `b`.
pub open spec fn spec_dec_record(b: Seq<u8>) -> Option<(RecordView, Seq<u8>)> {
    match spec_dec_str(b) {
        Some((message, b1)) => match spec_dec_str(b1) {
            Some((resource_name, b2)) => match spec_dec_str(b2) {
                Some((source_line, b3)) => match spec_dec_u64(b3) {
                    Some((line_number, b4)) => match spec_dec_u64(b4) {
                        Some((start_position, b5)) => match spec_dec_u64(b5) {
                            Some((end_position, b6)) => match spec_dec_u64(b6) {
                                Some((error_level, b7)) => match spec_dec_u64(b7) {
                                    Some((start_column, b8)) => match spec_dec_u64(b8) {
                                        Some((end_column, b9)) => match spec_dec_bool(b9) {
                                            Some((is_shared_cross_origin, b10)) => match spec_dec_bool(
                                                b10,
                                            ) {
                                                Some((is_opaque, b11)) => match spec_dec_u64(b11) {
                                                    Some((count, b12)) => match spec_dec_frames(
                                                        b12,
                                                        count as nat,
                                                    ) {
                                                        Some((frames, b13)) => Some(
                                                            (
                                                                RecordView {
                                                                    message,
                                                                    resource_name,
                                                                    source_line,
                                                                    line_number,
                                                                    start_position,
                                                                    end_position,
                                                                    error_level,
                                                                    start_column,
                                                                    end_column,
                                                                    is_shared_cross_origin,
                                                                    is_opaque,
                                                                    frames,
                                                                },
                                                                b13,
                                                            ),
                                                        ),
                                                        None => None,
                                                    },
                                                    None => None,
                                                },
                                                None => None,
                                            },
                                            None => None,
                                        },
                                        None => None,
                                    },
                                    None => None,
                                },
                                None => None,
                            },
                            None => None,
                        },
                        None => None,
                    },
                    None => None,
                },
                None => None,
            },
            None => None,
        },
        None => None,
    }
}

/// A text whose UTF-8 byte count the length prefix can carry.
pub open spec fn str_fits(s: Seq<char>) -> bool {
    encode_utf8(s).len() <= u64::MAX
}

/// A frame whose texts the wire shape can carry.
pub open spec fn frame_fits(f: FrameView) -> bool {
    &&& str_fits(f.script_name)
    &&& (f.function_name matches Some(s) ==> str_fits(s))
}

/// A record the wire shape can carry. Every record built from executable
/// strings and vectors satisfies this: their lengths are machine sizes.
pub open spec fn record_fits(v: RecordView) -> bool {
    &&& str_fits(v.message)
    &&& str_fits(v.resource_name)
    &&& str_fits(v.source_line)
    &&& v.frames.len() <= u64::MAX
    &&& forall|i: int| 0 <= i < v.frames.len() ==> frame_fits(#[trigger] v.frames[i])
}

fn put_u64(out: &mut Vec<u8>, x: u64)
    ensures
        final(out)@ == old(out)@ + spec_enc_u64(x),
{
    let mut b = u64_to_le_bytes(x);
    out.append(&mut b);
}

fn put_bool(out: &mut Vec<u8>, b: bool)
    ensures
        final(out)@ == old(out)@ + spec_enc_bool(b),
{
    out.push(if b { 1u8 } else { 0u8 });
    assert(final(out)@ =~= old(out)@ + spec_enc_bool(b));
}

fn put_str(out: &mut Vec<u8>, s: &String)
    ensures
        final(out)@ == old(out)@ + spec_enc_str(s@),
        str_fits(s@),
{
    let mut bytes = s.as_str().as_bytes_vec();
    let n: usize = bytes.len();
    proof {
        assert(encode_utf8(s@).len() == n);
    }
    put_u64(out, n as u64);
    out.append(&mut bytes);
}

fn put_opt_str(out: &mut Vec<u8>, s: &Option<String>)
    ensures
        final(out)@ == old(out)@ + spec_enc_opt_str(match *s {
            Some(t) => Some(t@),
            None => None,
        }),
        (*s matches Some(t) ==> str_fits(t@)),
{
    match s {
        Some(t) => {
            put_bool(out, true);
            put_str(out, t);
        }
        None => {
            put_bool(out, false);
        }
    }
}

fn put_frame(out: &mut Vec<u8>, f: &StackFrame)
    ensures
        final(out)@ == old(out)@ + spec_enc_frame(f@),
        frame_fits(f@),
{
    put_u64(out, f.line);
    put_u64(out, f.column);
    put_opt_str(out, &f.function_name);
    put_str(out, &f.script_name);
    put_bool(out, f.is_eval);
    put_bool(out, f.is_constructor);
    put_bool(out, f.is_internal);
}

/// Appending one frame to a run appends its bytes to the run's bytes.
proof fn lemma_enc_frames_push(frames: Seq<FrameView>, f: FrameView)
    ensures
        spec_enc_frames(frames.push(f)) == spec_enc_frames(frames) + spec_enc_frame(f),
    decreases frames.len(),
{
    if frames.len() == 0 {
        assert(frames.push(f)[0] == f);
        assert(frames.push(f).drop_first() =~= Seq::<FrameView>::empty());
        assert(spec_enc_frames(frames) + spec_enc_frame(f) =~= spec_enc_frame(f));
        assert(spec_enc_frame(f) + spec_enc_frames(Seq::<FrameView>::empty()) =~= spec_enc_frame(
            f,
        ));
    } else {
        lemma_enc_frames_push(frames.drop_first(), f);
        assert(frames.push(f).drop_first() =~= frames.drop_first().push(f));
        assert(frames.push(f)[0] == frames[0]);
        assert(spec_enc_frame(frames[0]) + (spec_enc_frames(frames.drop_first()) + spec_enc_frame(
            f,
        )) =~= (spec_enc_frame(frames[0]) + spec_enc_frames(frames.drop_first())) + spec_enc_frame(
            f,
        ));
    }
}

fn put_frames(out: &mut Vec<u8>, frames: &Vec<StackFrame>)
    ensures
        final(out)@ == old(out)@ + spec_enc_frames(frames.deep_view()),
        forall|i: int| 0 <= i < frames.deep_view().len() ==> frame_fits(
            #[trigger] frames.deep_view()[i],
        ),
{
    let ghost init: Seq<u8> = out@;
    let ghost fv: Seq<FrameView> = frames.deep_view();
    let mut i: usize = 0;
    proof {
        assert(fv.take(0) =~= Seq::<FrameView>::empty());
        assert(out@ =~= init + spec_enc_frames(fv.take(0)));
    }
    while i < frames.len()
        invariant
            i <= frames@.len(),
            fv == frames.deep_view(),
            fv.len() == frames@.len(),
            out@ == init + spec_enc_frames(fv.take(i as int)),
            forall|j: int| 0 <= j < i ==> frame_fits(#[trigger] fv[j]),
        decreases frames@.len() - i,
    {
        put_frame(out, &frames[i]);
        proof {
            lemma_enc_frames_push(fv.take(i as int), fv[i as int]);
            assert(fv.take(i + 1 as int) =~= fv.take(i as int).push(fv[i as int]));
            assert(out@ =~= init + spec_enc_frames(fv.take(i + 1 as int)));
        }
        i = i + 1;
    }
    proof {
        assert(fv.take(fv.len() as int) =~= fv);
    }
}

/// Serializes one diagnostic record into its wire bytes.
pub fn serialize_record(r: &DiagnosticRecord) -> (out: Vec<u8>)
    ensures
        out@ == spec_enc_record(r@),
        record_fits(r@),
{
    let mut out: Vec<u8> = Vec::new();
    put_str(&mut out, &r.message);
    put_str(&mut out, &r.resource_name);
    put_str(&mut out, &r.source_line);
    put_u64(&mut out, r.line_number);
    put_u64(&mut out, r.start_position);
    put_u64(&mut out, r.end_position);
    put_u64(&mut out, r.error_level);
    put_u64(&mut out, r.start_column);
    put_u64(&mut out, r.end_column);
    put_bool(&mut out, r.is_shared_cross_origin);
    put_bool(&mut out, r.is_opaque);
    put_u64(&mut out, r.frames.len() as u64);
    put_frames(&mut out, &r.frames);
    proof {
        assert(out@ =~= spec_enc_record(r@));
    }
    out
}

proof fn lemma_dec_enc_u64(x: u64, rest: Seq<u8>)
    ensures
        spec_dec_u64(spec_enc_u64(x) + rest) == Some((x, rest)),
{
    lemma_auto_spec_u64_to_from_le_bytes();
    let b = spec_enc_u64(x) + rest;
    assert(b.take(8) =~= spec_enc_u64(x));
    assert(b.skip(8) =~= rest);
}

proof fn lemma_dec_enc_bool(v: bool, rest: Seq<u8>)
    ensures
        spec_dec_bool(spec_enc_bool(v) + rest) == Some((v, rest)),
{
    let b = spec_enc_bool(v) + rest;
    assert(b[0] == (if v { 1u8 } else { 0u8 }));
    assert(b.skip(1) =~= rest);
}

proof fn lemma_dec_enc_str(s: Seq<char>, rest: Seq<u8>)
    requires
        str_fits(s),
    ensures
        spec_dec_str(spec_enc_str(s) + rest) == Some((s, rest)),
{
    let e = encode_utf8(s);
    let n = e.len() as int;
    let r1 = e + rest;
    assert(spec_enc_str(s) + rest =~= spec_enc_u64(e.len() as u64) + r1);
    lemma_dec_enc_u64(e.len() as u64, r1);
    assert(e.len() as u64 as int == n);
    assert(r1.take(n) =~= e);
    assert(r1.skip(n) =~= rest);
    vstd::utf8::encode_utf8_valid_utf8(s);
    vstd::utf8::encode_utf8_decode_utf8(s);
}

proof fn lemma_dec_enc_opt_str(s: Option<Seq<char>>, rest: Seq<u8>)
    requires
        s matches Some(t) ==> str_fits(t),
    ensures
        spec_dec_opt_str(spec_enc_opt_str(s) + rest) == Some((s, rest)),
{
    match s {
        Some(t) => {
            assert(spec_enc_opt_str(s) + rest =~= spec_enc_bool(true) + (spec_enc_str(t) + rest));
            lemma_dec_enc_bool(true, spec_enc_str(t) + rest);
            lemma_dec_enc_str(t, rest);
        }
        None => {
            assert(spec_enc_opt_str(s) + rest =~= spec_enc_bool(false) + rest);
            lemma_dec_enc_bool(false, rest);
        }
    }
}

#[verifier::rlimit(60)]
#[verifier::spinoff_prover]
proof fn lemma_dec_enc_frame(f: FrameView, rest: Seq<u8>)
    requires
        frame_fits(f),
    ensures
        spec_dec_frame(spec_enc_frame(f) + rest) == Some((f, rest)),
{
    let e1 = spec_enc_u64(f.line);
    let e2 = spec_enc_u64(f.column);
    let e3 = spec_enc_opt_str(f.function_name);
    let e4 = spec_enc_str(f.script_name);
    let e5 = spec_enc_bool(f.is_eval);
    let e6 = spec_enc_bool(f.is_constructor);
    let e7 = spec_enc_bool(f.is_internal);
    let r7 = rest;
    let r6 = e7 + r7;
    let r5 = e6 + r6;
    let r4 = e5 + r5;
    let r3 = e4 + r4;
    let r2 = e3 + r3;
    let r1 = e2 + r2;
    assert(spec_enc_frame(f) + rest =~= e1 + r1);
    lemma_dec_enc_u64(f.line, r1);
    lemma_dec_enc_u64(f.column, r2);
    lemma_dec_enc_opt_str(f.function_name, r3);
    lemma_dec_enc_str(f.script_name, r4);
    lemma_dec_enc_bool(f.is_eval, r5);
    lemma_dec_enc_bool(f.is_constructor, r6);
    lemma_dec_enc_bool(f.is_internal, r7);
    assert((FrameView {
        line: f.line,
        column: f.column,
        function_name: f.function_name,
        script_name: f.script_name,
        is_eval: f.is_eval,
        is_constructor: f.is_constructor,
        is_internal: f.is_internal,
    }) == f);
}

#[verifier::rlimit(60)]
#[verifier::spinoff_prover]
proof fn lemma_dec_enc_frames(frames: Seq<FrameView>, rest: Seq<u8>)
    requires
        forall|i: int| 0 <= i < frames.len() ==> frame_fits(#[trigger] frames[i]),
    ensures
        spec_dec_frames(spec_enc_frames(frames) + rest, frames.len()) == Some((frames, rest)),
    decreases frames.len(),
{
    if frames.len() == 0 {
        assert(spec_enc_frames(frames) + rest =~= rest);
        assert(frames =~= Seq::<FrameView>::empty());
    } else {
        let tail = frames.drop_first();
        assert(spec_enc_frames(frames) + rest =~= spec_enc_frame(frames[0]) + (spec_enc_frames(
            tail,
        ) + rest));
        lemma_dec_enc_frame(frames[0], spec_enc_frames(tail) + rest);
        assert(forall|i: int| 0 <= i < tail.len() ==> frame_fits(#[trigger] tail[i]));
        lemma_dec_enc_frames(tail, rest);
        assert(seq![frames[0]] + tail =~= frames);
    }
}

#[verifier::rlimit(100)]
#[verifier::spinoff_prover]
proof fn lemma_dec_enc_record(v: RecordView, rest: Seq<u8>)
    requires
        record_fits(v),
    ensures
        spec_dec_record(spec_enc_record(v)
            + rest) matches Some((w, r)) && w == v && r == rest,
{
    let e1 = spec_enc_str(v.message);
    let e2 = spec_enc_str(v.resource_name);
    let e3 = spec_enc_str(v.source_line);
    let e4 = spec_enc_u64(v.line_number);
    let e5 = spec_enc_u64(v.start_position);
    let e6 = spec_enc_u64(v.end_position);
    let e7 = spec_enc_u64(v.error_level);
    let e8 = spec_enc_u64(v.start_column);
    let e9 = spec_enc_u64(v.end_column);
    let e10 = spec_enc_bool(v.is_shared_cross_origin);
    let e11 = spec_enc_bool(v.is_opaque);
    let e12 = spec_enc_u64(v.frames.len() as u64);
    let e13 = spec_enc_frames(v.frames);
    let r13 = rest;
    let r12 = e13 + r13;
    let r11 = e12 + r12;
    let r10 = e11 + r11;
    let r9 = e10 + r10;
    let r8 = e9 + r9;
    let r7 = e8 + r8;
    let r6 = e7 + r7;
    let r5 = e6 + r6;
    let r4 = e5 + r5;
    let r3 = e4 + r4;
    let r2 = e3 + r3;
    let r1 = e2 + r2;
    let p1 = e1;
    let p2 = p1 + e2;
    let p3 = p2 + e3;
    let p4 = p3 + e4;
    let p5 = p4 + e5;
    let p6 = p5 + e6;
    let p7 = p6 + e7;
    let p8 = p7 + e8;
    let p9 = p8 + e9;
    let p10 = p9 + e10;
    let p11 = p10 + e11;
    let p12 = p11 + e12;
    let p13 = p12 + e13;
    assert(spec_enc_record(v) == p13);
    vstd::seq_lib::lemma_concat_associative(p12, e13, r13);
    vstd::seq_lib::lemma_concat_associative(p11, e12, r12);
    vstd::seq_lib::lemma_concat_associative(p10, e11, r11);
    vstd::seq_lib::lemma_concat_associative(p9, e10, r10);
    vstd::seq_lib::lemma_concat_associative(p8, e9, r9);
    vstd::seq_lib::lemma_concat_associative(p7, e8, r8);
    vstd::seq_lib::lemma_concat_associative(p6, e7, r7);
    vstd::seq_lib::lemma_concat_associative(p5, e6, r6);
    vstd::seq_lib::lemma_concat_associative(p4, e5, r5);
    vstd::seq_lib::lemma_concat_associative(p3, e4, r4);
    vstd::seq_lib::lemma_concat_associative(p2, e3, r3);
    vstd::seq_lib::lemma_concat_associative(p1, e2, r2);
    assert(spec_enc_record(v) + rest == e1 + r1);
    lemma_dec_enc_str(v.message, r1);
    lemma_dec_enc_str(v.resource_name, r2);
    lemma_dec_enc_str(v.source_line, r3);
    lemma_dec_enc_u64(v.line_number, r4);
    lemma_dec_enc_u64(v.start_position, r5);
    lemma_dec_enc_u64(v.end_position, r6);
    lemma_dec_enc_u64(v.error_level, r7);
    lemma_dec_enc_u64(v.start_column, r8);
    lemma_dec_enc_u64(v.end_column, r9);
    lemma_dec_enc_bool(v.is_shared_cross_origin, r10);
    lemma_dec_enc_bool(v.is_opaque, r11);
    lemma_dec_enc_u64(v.frames.len() as u64, r12);
    assert(v.frames.len() as u64 as nat == v.frames.len());
    lemma_dec_enc_frames(v.frames, r13);
}

/// A whole parse of one record: the parse must consume every byte.
pub open spec fn spec_parse_record_exact(b: Seq<u8>) -> Option<RecordView> {
    match spec_dec_record(b) {
        Some((v, rest)) => if rest.len() == 0 {
            Some(v)
        } else {
            None
        },
        None => None,
    }
}

/// Relies on String::from_utf8: it succeeds exactly on valid UTF-8 input,
/// yielding the string those bytes encode, and fails on anything else.
#[verifier::external_body]
fn string_from_utf8(bytes: Vec<u8>) -> (r: Option<String>)
    ensures
        match r {
            Some(s) => valid_utf8(bytes@) && s@ == decode_utf8(bytes@),
            None => !valid_utf8(bytes@),
        },
{
    String::from_utf8(bytes).ok()
}

fn get_u64(b: &Vec<u8>, pos: usize) -> (r: Option<(u64, usize)>)
    requires
        pos <= b@.len(),
    ensures
        match r {
            Some((x, p)) => pos <= p <= b@.len() && spec_dec_u64(b@.skip(pos as int)) == Some(
                (x, b@.skip(p as int)),
            ),
            None => spec_dec_u64(b@.skip(pos as int)) is None,
        },
{
    if b.len() - pos >= 8 {
        let s = vstd::slice::slice_subrange(b.as_slice(), pos, pos + 8);
        let x = u64_from_le_bytes(s);
        proof {
            assert(s@ =~= b@.skip(pos as int).take(8));
            assert(b@.skip(pos as int).skip(8) =~= b@.skip(pos as int + 8));
        }
        Some((x, pos + 8))
    } else {
        None
    }
}

fn get_bool(b: &Vec<u8>, pos: usize) -> (r: Option<(bool, usize)>)
    requires
        pos <= b@.len(),
    ensures
        match r {
            Some((v, p)) => pos <= p <= b@.len() && spec_dec_bool(b@.skip(pos as int)) == Some(
                (v, b@.skip(p as int)),
            ),
            None => spec_dec_bool(b@.skip(pos as int)) is None,
        },
{
    if b.len() - pos >= 1 {
        let c: u8 = b[pos];
        proof {
            assert(b@.skip(pos as int)[0] == b@[pos as int]);
        }
        if c == 0 || c == 1 {
            proof {
                assert(b@.skip(pos as int).skip(1) =~= b@.skip(pos as int + 1));
            }
            Some((c == 1, pos + 1))
        } else {
            None
        }
    } else {
        None
    }
}

fn get_str(b: &Vec<u8>, pos: usize) -> (r: Option<(String, usize)>)
    requires
        pos <= b@.len(),
    ensures
        match r {
            Some((s, p)) => pos <= p <= b@.len() && (spec_dec_str(b@.skip(pos as int))
                matches Some((t, rest)) && s@ == t && rest == b@.skip(p as int)),
            None => spec_dec_str(b@.skip(pos as int)) is None,
        },
{
    match get_u64(b, pos) {
        Some((n, p)) => {
            if n <= (b.len() - p) as u64 {
                let n_us = n as usize;
                let bytes = vstd::slice::slice_to_vec(
                    vstd::slice::slice_subrange(b.as_slice(), p, p + n_us),
                );
                proof {
                    assert(bytes@ =~= b@.skip(p as int).take(n as int));
                }
                match string_from_utf8(bytes) {
                    Some(s) => {
                        proof {
                            assert(b@.skip(p as int).skip(n as int) =~= b@.skip(
                                (p + n_us) as int,
                            ));
                        }
                        Some((s, p + n_us))
                    }
                    None => None,
                }
            } else {
                None
            }
        }
        None => None,
    }
}

fn get_opt_str(b: &Vec<u8>, pos: usize) -> (r: Option<(Option<String>, usize)>)
    requires
        pos <= b@.len(),
    ensures
        match r {
            Some((s, p)) => pos <= p <= b@.len() && (spec_dec_opt_str(b@.skip(pos as int))
                matches Some((t, rest)) && s.deep_view() == t && rest == b@.skip(p as int)),
            None => spec_dec_opt_str(b@.skip(pos as int)) is None,
        },
{
    match get_bool(b, pos) {
        Some((present, p)) => {
            if present {
                match get_str(b, p) {
                    Some((s, p2)) => Some((Some(s), p2)),
                    None => None,
                }
            } else {
                Some((None, p))
            }
        }
        None => None,
    }
}

#[verifier::rlimit(60)]
#[verifier::spinoff_prover]
fn get_frame(b: &Vec<u8>, pos: usize) -> (r: Option<(StackFrame, usize)>)
    requires
        pos <= b@.len(),
    ensures
        match r {
            Some((f, p)) => pos <= p <= b@.len() && (spec_dec_frame(b@.skip(pos as int))
                matches Some((fv, rest)) && fv == f@ && rest == b@.skip(p as int)),
            None => spec_dec_frame(b@.skip(pos as int)) is None,
        },
{
    let (line, p1) = match get_u64(b, pos) {
        Some(x) => x,
        None => {
            return None;
        }
    };
    let (column, p2) = match get_u64(b, p1) {
        Some(x) => x,
        None => {
            return None;
        }
    };
    let (function_name, p3) = match get_opt_str(b, p2) {
        Some(x) => x,
        None => {
            return None;
        }
    };
    let (script_name, p4) = match get_str(b, p3) {
        Some(x) => x,
        None => {
            return None;
        }
    };
    let (is_eval, p5) = match get_bool(b, p4) {
        Some(x) => x,
        None => {
            return None;
        }
    };
    let (is_constructor, p6) = match get_bool(b, p5) {
        Some(x) => x,
        None => {
            return None;
        }
    };
    let (is_internal, p7) = match get_bool(b, p6) {
        Some(x) => x,
        None => {
            return None;
        }
    };
    Some(
        (
            StackFrame {
                line,
                column,
                function_name,
                script_name,
                is_eval,
                is_constructor,
                is_internal,
            },
            p7,
        ),
    )
}

#[verifier::rlimit(60)]
#[verifier::spinoff_prover]
fn get_frames(b: &Vec<u8>, pos: usize, count: u64) -> (r: Option<(Vec<StackFrame>, usize)>)
    requires
        pos <= b@.len(),
    ensures
        match r {
            Some((fs, p)) => pos <= p <= b@.len() && (spec_dec_frames(
                b@.skip(pos as int),
                count as nat,
            ) matches Some((fv, rest)) && fv == fs.deep_view() && rest == b@.skip(p as int)),
            None => spec_dec_frames(b@.skip(pos as int), count as nat) is None,
        },
{
    let mut fs: Vec<StackFrame> = Vec::new();
    let mut cur: usize = pos;
    let mut remaining: u64 = count;
    proof {
        assert(fs.deep_view() =~= Seq::<FrameView>::empty());
    }
    loop
        invariant
            pos <= cur <= b@.len(),
            (match spec_dec_frames(b@.skip(cur as int), remaining as nat) {
                Some((tail, rest)) => spec_dec_frames(b@.skip(pos as int), count as nat) == Some(
                    (fs.deep_view() + tail, rest),
                ),
                None => spec_dec_frames(b@.skip(pos as int), count as nat) is None,
            }),
        decreases remaining,
    {
        if remaining == 0 {
            proof {
                assert(fs.deep_view() + Seq::<FrameView>::empty() =~= fs.deep_view());
            }
            return Some((fs, cur));
        }
        match get_frame(b, cur) {
            Some((f, p)) => {
                let ghost fsv: Seq<FrameView> = fs.deep_view();
                let ghost f_v: FrameView = f@;
                proof {
                    match spec_dec_frames(b@.skip(p as int), (remaining - 1) as nat) {
                        Some((tail2, rest2)) => {
                            assert(fsv + (seq![f_v] + tail2) =~= fsv.push(f_v) + tail2);
                        }
                        None => {}
                    }
                }
                fs.push(f);
                proof {
                    assert(fs.deep_view() =~= fsv.push(f_v));
                }
                cur = p;
                remaining = remaining - 1;
            }
            None => {
                return None;
            }
        }
    }
}

/// Parses the wire bytes of one diagnostic record, accepting exactly the
/// byte runs the serializer produces: a parse that leaves bytes over, or
/// stops early, is refused.
#[verifier::rlimit(100)]
#[verifier::spinoff_prover]
pub fn deserialize_record(b: &Vec<u8>) -> (r: Option<DiagnosticRecord>)
    ensures
        match r {
            Some(rec) => spec_parse_record_exact(b@) == Some(rec@),
            None => spec_parse_record_exact(b@) is None,
        },
{
    proof {
        assert(b@.skip(0) =~= b@);
    }
    let (message, p1) = match get_str(b, 0) {
        Some(x) => x,
        None => {
            return None;
        }
    };
    let (resource_name, p2) = match get_str(b, p1) {
        Some(x) => x,
        None => {
            return None;
        }
    };
    let (source_line, p3) = match get_str(b, p2) {
        Some(x) => x,
        None => {
            return None;
        }
    };
    let (line_number, p4) = match get_u64(b, p3) {
        Some(x) => x,
        None => {
            return None;
        }
    };
    let (start_position, p5) = match get_u64(b, p4) {
        Some(x) => x,
        None => {
            return None;
        }
    };
    let (end_position, p6) = match get_u64(b, p5) {
        Some(x) => x,
        None => {
            return None;
        }
    };
    let (error_level, p7) = match get_u64(b, p6) {
        Some(x) => x,
        None => {
            return None;
        }
    };
    let (start_column, p8) = match get_u64(b, p7) {
        Some(x) => x,
        None => {
            return None;
        }
    };
    let (end_column, p9) = match get_u64(b, p8) {
        Some(x) => x,
        None => {
            return None;
        }
    };
    let (is_shared_cross_origin, p10) = match get_bool(b, p9) {
        Some(x) => x,
        None => {
            return None;
        }
    };
    let (is_opaque, p11) = match get_bool(b, p10) {
        Some(x) => x,
        None => {
            return None;
        }
    };
    let (count, p12) = match get_u64(b, p11) {
        Some(x) => x,
        None => {
            return None;
        }
    };
    let (frames, p13) = match get_frames(b, p12, count) {
        Some(x) => x,
        None => {
            return None;
        }
    };
    if p13 != b.len() {
        return None;
    }
    Some(
        DiagnosticRecord {
            message,
            resource_name,
            source_line,
            line_number,
            start_position,
            end_position,
            error_level,
            start_column,
            end_column,
            is_shared_cross_origin,
            is_opaque,
            frames,
        },
    )
}

/// Law: parsing the wire bytes of a record yields exactly that record with
/// nothing left over; serialization loses nothing and parsing adds nothing.
/// Every record whose texts and frame count are machine-sized (as every
/// record built at run time is) satisfies `record_fits`.
pub proof fn lemma_record_round_trip(v: RecordView)
    requires
        record_fits(v),
    ensures
        spec_dec_record(spec_enc_record(v)) == Some((v, Seq::<u8>::empty())),
{
    lemma_dec_enc_record(v, Seq::<u8>::empty());
    assert(spec_enc_record(v) + Seq::<u8>::empty() =~= spec_enc_record(v));
}

} // verus!
