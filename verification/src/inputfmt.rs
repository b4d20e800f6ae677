//! Rendering of the pipeline input artifact.
//!
//! Before witness generation the orchestrator writes one JSON object holding
//! the two normalized points as 3-element integer arrays and the derived
//! squared-distance metric. The exact bytes are pinned down here; the caller
//! only persists them.

use vstd::prelude::*;
use crate::pipeline::PipelineInput;
use crate::point::Point3D;

verus! {

/// The ASCII decimal digits of `n`, most significant first.
pub open spec fn spec_dec_digits(n: nat) -> Seq<u8>
    decreases n,
{
    if n < 10 {
        seq![(48 + n) as u8]
    } else {
        spec_dec_digits(n / 10).push((48 + n % 10) as u8)
    }
}

/// The ASCII rendering of a signed value: the digits of the magnitude,
/// behind a minus sign when the value is negative.
pub open spec fn spec_dec_signed(v: int) -> Seq<u8> {
    if v >= 0 {
        spec_dec_digits(v as nat)
    } else {
        seq![45u8] + spec_dec_digits((-v) as nat)
    }
}

/// A normalized point as a JSON array of its three coordinates.
pub open spec fn spec_point_array(p: Point3D) -> Seq<u8> {
    seq![91u8] + spec_dec_signed(p.x as int) + seq![44u8] + spec_dec_signed(p.y as int) + seq![44u8]
        + spec_dec_signed(p.z as int) + seq![93u8]
}

/// `{"point1":`
pub open spec fn spec_lit_point1() -> Seq<u8> {
    seq![123u8, 34u8, 112u8, 111u8, 105u8, 110u8, 116u8, 49u8, 34u8, 58u8]
}

/// `,"point2":`
pub open spec fn spec_lit_point2() -> Seq<u8> {
    seq![44u8, 34u8, 112u8, 111u8, 105u8, 110u8, 116u8, 50u8, 34u8, 58u8]
}

/// `,"distance_squared":`
pub open spec fn spec_lit_distance() -> Seq<u8> {
    seq![
        44u8,
        34u8,
        100u8,
        105u8,
        115u8,
        116u8,
        97u8,
        110u8,
        99u8,
        101u8,
        95u8,
        115u8,
        113u8,
        117u8,
        97u8,
        114u8,
        101u8,
        100u8,
        34u8,
        58u8,
    ]
}

/// The whole pipeline input object:
/// `{"point1":[x,y,z],"point2":[x,y,z],"distance_squared":d}`.
pub open spec fn spec_input_json(inp: PipelineInput) -> Seq<u8> {
    spec_lit_point1() + spec_point_array(inp.start_point) + spec_lit_point2() + spec_point_array(
        inp.end_point,
    ) + spec_lit_distance() + spec_dec_digits(inp.distance_squared as nat) + seq![125u8]
}

/// Append the decimal digits of `n`.
fn push_dec(out: &mut Vec<u8>, n: u64)
    ensures
        final(out)@ == old(out)@ + spec_dec_digits(n as nat),
    decreases n,
{
    if n < 10 {
        let d: u8 = (48 + n) as u8;
        out.push(d);
        proof {
            assert(out@ =~= old(out)@ + spec_dec_digits(n as nat));
        }
    } else {
        push_dec(out, n / 10);
        let d: u8 = (48 + n % 10) as u8;
        out.push(d);
        proof {
            assert(out@ =~= old(out)@ + spec_dec_digits(n as nat));
        }
    }
}

/// Append the decimal rendering of a signed coordinate.
fn push_dec_signed(out: &mut Vec<u8>, v: i64)
    requires
        v > i64::MIN,
    ensures
        final(out)@ == old(out)@ + spec_dec_signed(v as int),
{
    if v < 0 {
        out.push(45);
        push_dec(out, (-v) as u64);
        proof {
            assert(out@ =~= old(out)@ + spec_dec_signed(v as int));
        }
    } else {
        push_dec(out, v as u64);
    }
}

/// Append a point as `[x,y,z]`.
fn push_point_array(out: &mut Vec<u8>, p: &Point3D)
    requires
        p.wf(),
    ensures
        final(out)@ == old(out)@ + spec_point_array(*p),
{
    out.push(91u8);
    push_dec_signed(out, p.x);
    out.push(44u8);
    push_dec_signed(out, p.y);
    out.push(44u8);
    push_dec_signed(out, p.z);
    out.push(93u8);
    proof {
        assert(out@ =~= old(out)@ + spec_point_array(*p));
    }
}

/// Append the literal `{"point1":`.
fn push_lit_point1(out: &mut Vec<u8>)
    ensures
        final(out)@ == old(out)@ + spec_lit_point1(),
{
    out.push(123u8);
    out.push(34u8);
    out.push(112u8);
    out.push(111u8);
    out.push(105u8);
    out.push(110u8);
    out.push(116u8);
    out.push(49u8);
    out.push(34u8);
    out.push(58u8);
    proof {
        assert(out@ =~= old(out)@ + spec_lit_point1());
    }
}

/// Append the literal `,"point2":`.
fn push_lit_point2(out: &mut Vec<u8>)
    ensures
        final(out)@ == old(out)@ + spec_lit_point2(),
{
    out.push(44u8);
    out.push(34u8);
    out.push(112u8);
    out.push(111u8);
    out.push(105u8);
    out.push(110u8);
    out.push(116u8);
    out.push(50u8);
    out.push(34u8);
    out.push(58u8);
    proof {
        assert(out@ =~= old(out)@ + spec_lit_point2());
    }
}

/// Append the literal `,"distance_squared":`.
fn push_lit_distance(out: &mut Vec<u8>)
    ensures
        final(out)@ == old(out)@ + spec_lit_distance(),
{
    out.push(44u8);
    out.push(34u8);
    out.push(100u8);
    out.push(105u8);
    out.push(115u8);
    out.push(116u8);
    out.push(97u8);
    out.push(110u8);
    out.push(99u8);
    out.push(101u8);
    out.push(95u8);
    out.push(115u8);
    out.push(113u8);
    out.push(117u8);
    out.push(97u8);
    out.push(114u8);
    out.push(101u8);
    out.push(100u8);
    out.push(34u8);
    out.push(58u8);
    proof {
        assert(out@ =~= old(out)@ + spec_lit_distance());
    }
}

/// Render the pipeline input object exactly as [`spec_input_json`] states
/// it, ready to be written to the input artifact.
pub fn render_input_json(inp: &PipelineInput) -> (r: Vec<u8>)
    requires
        inp.start_point.wf(),
        inp.end_point.wf(),
    ensures
        r@ == spec_input_json(*inp),
{
    let mut out: Vec<u8> = Vec::new();
    push_lit_point1(&mut out);
    push_point_array(&mut out, &inp.start_point);
    push_lit_point2(&mut out);
    push_point_array(&mut out, &inp.end_point);
    push_lit_distance(&mut out);
    push_dec(&mut out, inp.distance_squared);
    out.push(125u8);
    proof {
        assert(out@ =~= spec_input_json(*inp));
    }
    out
}

} // verus!
