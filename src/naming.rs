use vstd::prelude::*;
use vstd::string::*;
use crate::text::{dec, is_digit, lemma_dec_injective, lemma_dec_is_digits, length_text, push_decimal, push_length};

verus! {

/// The suffix that tells the artifacts of one sweep apart: empty for a
/// sweep of one part, else a dash and the zero-based index.
pub open spec fn index_suffix(index: nat, count: nat) -> Seq<char> {
    if count > 1 {
        seq!['-'] + dec(index)
    } else {
        Seq::empty()
    }
}

/// The name of the artifact at `index` of a sweep of `count` parts, without
/// the file extension. A part with a bore names its bore diameter and
/// segment count; a plain cube names its side length only.
pub open spec fn artifact_stem(
    index: nat,
    count: nat,
    side_length: nat,
    tube_diameter: int,
    segments: nat,
) -> Seq<char> {
    if tube_diameter > 0 {
        "cube-with-tube"@ + index_suffix(index, count) + ".len_side-"@ + length_text(side_length)
            + "_tube_diameter-"@ + length_text(tube_diameter as nat) + "_segments-"@ + dec(
            segments,
        )
    } else {
        "cube"@ + index_suffix(index, count) + ".len_side-"@ + length_text(side_length)
    }
}

/// The file name of an artifact: its stem and the mesh file extension.
pub open spec fn artifact_file_name(
    index: nat,
    count: nat,
    side_length: nat,
    tube_diameter: int,
    segments: nat,
) -> Seq<char> {
    artifact_stem(index, count, side_length, tube_diameter, segments) + ".stl"@
}

/// The name of the artifact at `index` of a sweep of `count` parts, without
/// extension; it is also the solid's name inside the exported mesh.
pub fn artifact_name(
    index: usize,
    count: usize,
    side_length: u64,
    tube_diameter: i64,
    segments: u32,
) -> (r: String)
    ensures
        r@ == artifact_stem(
            index as nat,
            count as nat,
            side_length as nat,
            tube_diameter as int,
            segments as nat,
        ),
{
    let mut s = String::new();
    if tube_diameter > 0 {
        s.append("cube-with-tube");
    } else {
        s.append("cube");
    }
    let ghost s1 = s@;
    if count > 1 {
        proof { reveal_strlit("-"); }
        s.append("-");
        push_decimal(&mut s, index as u64);
    }
    assert(s@ =~= s1 + index_suffix(index as nat, count as nat));
    s.append(".len_side-");
    push_length(&mut s, side_length);
    if tube_diameter > 0 {
        s.append("_tube_diameter-");
        push_length(&mut s, tube_diameter as u64);
        s.append("_segments-");
        push_decimal(&mut s, segments as u64);
    }
    proof {
        assert(s@ =~= artifact_stem(
            index as nat,
            count as nat,
            side_length as nat,
            tube_diameter as int,
            segments as nat,
        ));
    }
    s
}

/// The file that the artifact at `index` of a sweep is written to.
pub fn artifact_file(
    index: usize,
    count: usize,
    side_length: u64,
    tube_diameter: i64,
    segments: u32,
) -> (r: String)
    ensures
        r@ == artifact_file_name(
            index as nat,
            count as nat,
            side_length as nat,
            tube_diameter as int,
            segments as nat,
        ),
{
    let mut s = artifact_name(index, count, side_length, tube_diameter, segments);
    s.append(".stl");
    s
}

/// Naming is a function of the parameters alone: two artifacts whose
/// index, sweep size, side length, bore diameter and segment count agree
/// carry the same name.
pub proof fn artifact_names_are_deterministic(
    index1: nat,
    count1: nat,
    side1: nat,
    diameter1: int,
    segments1: nat,
    index2: nat,
    count2: nat,
    side2: nat,
    diameter2: int,
    segments2: nat,
)
    requires
        index1 == index2,
        count1 == count2,
        side1 == side2,
        diameter1 == diameter2,
        segments1 == segments2,
    ensures
        artifact_stem(index1, count1, side1, diameter1, segments1) == artifact_stem(
            index2,
            count2,
            side2,
            diameter2,
            segments2,
        ),
        artifact_file_name(index1, count1, side1, diameter1, segments1) == artifact_file_name(
            index2,
            count2,
            side2,
            diameter2,
            segments2,
        ),
{
}

/// The tail of a name that follows its index suffix.
pub open spec fn stem_tail(
    side_length: nat,
    tube_diameter: int,
    segments: nat,
) -> Seq<char> {
    if tube_diameter > 0 {
        ".len_side-"@ + length_text(side_length) + "_tube_diameter-"@ + length_text(
            tube_diameter as nat,
        ) + "_segments-"@ + dec(segments)
    } else {
        ".len_side-"@ + length_text(side_length)
    }
}

/// Two names that share a head and continue with different runs of digits,
/// each followed by a dot, differ.
proof fn lemma_digit_runs_differ(h: Seq<char>, a: Seq<char>, b: Seq<char>, ta: Seq<char>, tb: Seq<char>)
    requires
        a.len() >= 1,
        b.len() >= 1,
        forall|k: int| 0 <= k < a.len() ==> is_digit(#[trigger] a[k]),
        forall|k: int| 0 <= k < b.len() ==> is_digit(#[trigger] b[k]),
        ta.len() >= 1 && ta[0] == '.',
        tb.len() >= 1 && tb[0] == '.',
        a != b,
    ensures
        h + a + ta != h + b + tb,
{
    let sa = h + a + ta;
    let sb = h + b + tb;
    let p = h.len() as int;
    if sa == sb {
        if a.len() < b.len() {
            assert(sa[p + a.len()] == ta[0]);
            assert(sb[p + a.len()] == b[a.len() as int]);
        } else if b.len() < a.len() {
            assert(sb[p + b.len()] == tb[0]);
            assert(sa[p + b.len()] == a[b.len() as int]);
        } else {
            assert(sa.subrange(p, p + a.len()) =~= a);
            assert(sb.subrange(p, p + b.len()) =~= b);
        }
    }
}

proof fn lemma_stem_split(i: nat, count: nat, side_length: nat, diameter: int, segments: nat)
    requires
        count > 1,
    ensures
        artifact_stem(i, count, side_length, diameter, segments) == (if diameter > 0 {
            "cube-with-tube-"@
        } else {
            "cube-"@
        }) + dec(i) + stem_tail(side_length, diameter, segments),
{
    reveal_strlit("cube-with-tube-");
    reveal_strlit("cube-with-tube");
    reveal_strlit("cube-");
    reveal_strlit("cube");
    let t = stem_tail(side_length, diameter, segments);
    if diameter > 0 {
        assert(artifact_stem(i, count, side_length, diameter, segments) =~= "cube-with-tube-"@ + dec(i) + t);
    } else {
        assert(artifact_stem(i, count, side_length, diameter, segments) =~= "cube-"@ + dec(i) + t);
    }
}

/// Within a sweep of several parts, no two indices share a name, whatever
/// the diameters at those indices: one file is written per part.
pub proof fn swept_names_are_distinct(
    i: nat,
    j: nat,
    count: nat,
    side_length: nat,
    diameter_i: int,
    diameter_j: int,
    segments: nat,
)
    requires
        count > 1,
        i != j,
    ensures
        artifact_stem(i, count, side_length, diameter_i, segments) != artifact_stem(
            j,
            count,
            side_length,
            diameter_j,
            segments,
        ),
{
    reveal_strlit("cube-with-tube-");
    reveal_strlit("cube-");
    reveal_strlit(".len_side-");
    lemma_stem_split(i, count, side_length, diameter_i, segments);
    lemma_stem_split(j, count, side_length, diameter_j, segments);
    lemma_dec_is_digits(i);
    lemma_dec_is_digits(j);
    let ti = stem_tail(side_length, diameter_i, segments);
    let tj = stem_tail(side_length, diameter_j, segments);
    assert(ti[0] == '.');
    assert(tj[0] == '.');
    if dec(i) == dec(j) {
        lemma_dec_injective(i, j);
    }
    if (diameter_i > 0) == (diameter_j > 0) {
        let h: Seq<char> = if diameter_i > 0 { "cube-with-tube-"@ } else { "cube-"@ };
        lemma_digit_runs_differ(h, dec(i), dec(j), ti, tj);
    } else {
        let si = artifact_stem(i, count, side_length, diameter_i, segments);
        let sj = artifact_stem(j, count, side_length, diameter_j, segments);
        if diameter_i > 0 {
            assert(si[5] == 'w');
            assert(sj[5] == dec(j)[0]);
        } else {
            assert(sj[5] == 'w');
            assert(si[5] == dec(i)[0]);
        }
    }
}

} // verus!
