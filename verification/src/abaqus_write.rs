use vstd::prelude::*;
use vstd::string::StringSliceAdditionalSpecFns;
use crate::point::Point2;
use crate::triangulation::{Triangle, Triangulation};

verus! {

/// The decimal digits of `n`, most significant first, as ASCII bytes.
pub open spec fn dec_digits(n: nat) -> Seq<u8>
    decreases n,
{
    if n < 10 {
        seq![(48 + n) as u8]
    } else {
        dec_digits(n / 10).push((48 + n % 10) as u8)
    }
}

/// The decimal rendering of a possibly negative value: a minus sign
/// followed by the digits of its magnitude.
pub open spec fn int_digits(v: int) -> Seq<u8> {
    if v < 0 {
        seq![45u8] + dec_digits((-v) as nat)
    } else {
        dec_digits(v as nat)
    }
}

/// The first `n` node lines: 1-based index, then the two coordinates,
/// separated by a comma and a tab.
pub open spec fn node_lines(nodes: Seq<Point2>, n: int) -> Seq<u8>
    decreases n,
{
    if n <= 0 {
        Seq::empty()
    } else {
        node_lines(nodes, n - 1) + dec_digits(n as nat) + ",\t".spec_bytes() + int_digits(
            nodes[n - 1].x as int,
        ) + ",\t".spec_bytes() + int_digits(nodes[n - 1].y as int) + "\n".spec_bytes()
    }
}

/// The first `n` element lines: 1-based element index, then the three
/// 1-based node indices in stored order.
pub open spec fn element_lines(els: Seq<Triangle>, n: int) -> Seq<u8>
    decreases n,
{
    if n <= 0 {
        Seq::empty()
    } else {
        element_lines(els, n - 1) + dec_digits(n as nat) + ",\t".spec_bytes() + dec_digits(
            (els[n - 1].a.0 + 1) as nat,
        ) + ",\t".spec_bytes() + dec_digits((els[n - 1].b.0 + 1) as nat) + ",\t".spec_bytes()
            + dec_digits((els[n - 1].c.0 + 1) as nat) + "\n".spec_bytes()
    }
}

/// The first `n` entries of the element-set listing: 1-based indices,
/// comma separated, with a line break before every tenth entry.
pub open spec fn elset_items(n: int) -> Seq<u8>
    decreases n,
{
    if n <= 0 {
        Seq::empty()
    } else {
        elset_items(n - 1) + (if n > 1 {
            ",".spec_bytes()
        } else {
            Seq::empty()
        }) + (if (n - 1) % 10 == 0 && n != 1 {
            "\n".spec_bytes()
        } else {
            Seq::empty()
        }) + dec_digits(n as nat)
    }
}

/// The complete export document for a mesh: header, node lines, element
/// lines, element set, and the fixed part and assembly footer.
pub open spec fn abaqus_doc(nodes: Seq<Point2>, elements: Seq<Triangle>) -> Seq<u8> {
    "*Part, name=PART-1\n*Node\n".spec_bytes() + node_lines(nodes, nodes.len() as int)
        + "*Element, type=CPE3\n".spec_bytes() + element_lines(elements, elements.len() as int)
        + "*Elset, elset=M_1\n".spec_bytes() + elset_items(elements.len() as int)
        + "\n".spec_bytes()
        + "*Solid Section, elset=M_1, material=M_1\n1.,\n*End Part\n**\n**\n** ASSEMBLY\n**\n*Assembly, name=Assembly\n**\n*Instance, name=PART-1-1, part=PART-1\n*End Instance\n**\n*End Assembly\n".spec_bytes()
}

/// Appends the bytes of a string slice.
#[verifier::loop_isolation(false)]
fn push_str_bytes(out: &mut Vec<u8>, s: &str)
    ensures
        final(out)@ == old(out)@ + s.spec_bytes(),
{
    let b = s.as_bytes();
    let n = b.len();
    let mut j: usize = 0;
    while j < n
        invariant
            j <= n,
            out@ == old(out)@ + b@.subrange(0, j as int),
        decreases n - j,
    {
        let x = b[j];
        out.push(x);
        proof {
            assert(old(out)@ + b@.subrange(0, j + 1) =~= (old(out)@ + b@.subrange(0, j as int)).push(
                b@[j as int],
            ));
        }
        j += 1;
    }
    proof {
        assert(b@.subrange(0, n as int) =~= b@);
    }
}

/// Appends the decimal digits of `n`.
fn push_u64(out: &mut Vec<u8>, n: u64)
    ensures
        final(out)@ == old(out)@ + dec_digits(n as nat),
    decreases n,
{
    if n >= 10 {
        push_u64(out, n / 10);
    }
    let d: u8 = 48 + (n % 10) as u8;
    out.push(d);
    proof {
        if n >= 10 {
            assert((old(out)@ + dec_digits((n / 10) as nat)).push((48 + n as nat % 10) as u8) =~= old(
                out,
            )@ + dec_digits(n as nat));
        } else {
            assert(old(out)@.push((48 + n as nat) as u8) =~= old(out)@ + dec_digits(n as nat));
        }
    }
}

/// Appends the decimal rendering of a signed coordinate.
fn push_i64(out: &mut Vec<u8>, v: i64)
    requires
        v > i64::MIN,
    ensures
        final(out)@ == old(out)@ + int_digits(v as int),
{
    if v < 0 {
        out.push(45);
        let m: u64 = (-v) as u64;
        push_u64(out, m);
        proof {
            assert(old(out)@.push(45u8) + dec_digits(m as nat) =~= old(out)@ + int_digits(
                v as int,
            ));
        }
    } else {
        push_u64(out, v as u64);
    }
}

/// Serializes a finished mesh to the fixed text format, as its exact byte
/// sequence: the document is a function of the node and element sequences
/// alone.
#[verifier::loop_isolation(false)]
#[verifier::rlimit(100)]
pub fn write_to_abaqus_format(triangulation: &Triangulation) -> (out: Vec<u8>)
    requires
        triangulation.wf(),
    ensures
        out@ == abaqus_doc(triangulation.nodes@, triangulation.elements@),
{
    let mut out: Vec<u8> = Vec::new();
    push_str_bytes(&mut out, "*Part, name=PART-1\n*Node\n");
    let n_nodes = triangulation.nodes.len();
    let ghost pre_nodes = out@;
    let mut i: usize = 0;
    while i < n_nodes
        invariant
            i <= n_nodes,
            out@ == pre_nodes + node_lines(triangulation.nodes@, i as int),
        decreases n_nodes - i,
    {
        let p = triangulation.nodes[i];
        push_u64(&mut out, (i + 1) as u64);
        push_str_bytes(&mut out, ",\t");
        push_i64(&mut out, p.x);
        push_str_bytes(&mut out, ",\t");
        push_i64(&mut out, p.y);
        push_str_bytes(&mut out, "\n");
        proof {
            assert(out@ =~= pre_nodes + node_lines(triangulation.nodes@, i + 1));
        }
        i += 1;
    }
    push_str_bytes(&mut out, "*Element, type=CPE3\n");
    let n_els = triangulation.elements.len();
    let ghost pre_els = out@;
    let mut i: usize = 0;
    while i < n_els
        invariant
            i <= n_els,
            out@ == pre_els + element_lines(triangulation.elements@, i as int),
        decreases n_els - i,
    {
        let t = triangulation.elements[i];
        push_u64(&mut out, (i + 1) as u64);
        push_str_bytes(&mut out, ",\t");
        push_u64(&mut out, (t.a.0 + 1) as u64);
        push_str_bytes(&mut out, ",\t");
        push_u64(&mut out, (t.b.0 + 1) as u64);
        push_str_bytes(&mut out, ",\t");
        push_u64(&mut out, (t.c.0 + 1) as u64);
        push_str_bytes(&mut out, "\n");
        proof {
            assert(out@ =~= pre_els + element_lines(triangulation.elements@, i + 1));
        }
        i += 1;
    }
    push_str_bytes(&mut out, "*Elset, elset=M_1\n");
    let ghost pre_set = out@;
    let mut w: usize = 0;
    while w < n_els
        invariant
            w <= n_els,
            out@ == pre_set + elset_items(w as int),
        decreases n_els - w,
    {
        if w > 0 {
            push_str_bytes(&mut out, ",");
        }
        if w % 10 == 0 && w != 0 {
            push_str_bytes(&mut out, "\n");
        }
        push_u64(&mut out, (w + 1) as u64);
        proof {
            assert(out@ =~= pre_set + elset_items(w + 1));
        }
        w += 1;
    }
    push_str_bytes(&mut out, "\n");
    push_str_bytes(
        &mut out,
        "*Solid Section, elset=M_1, material=M_1\n1.,\n*End Part\n**\n**\n** ASSEMBLY\n**\n*Assembly, name=Assembly\n**\n*Instance, name=PART-1-1, part=PART-1\n*End Instance\n**\n*End Assembly\n",
    );
    proof {
        assert(out@ =~= abaqus_doc(triangulation.nodes@, triangulation.elements@));
    }
    out
}

/// Export determinism: the document is a function of the node and element
/// sequences alone, so serializing the same mesh twice yields the same
/// bytes.
pub proof fn lemma_export_deterministic(
    r1: Seq<u8>,
    r2: Seq<u8>,
    nodes: Seq<Point2>,
    elements: Seq<Triangle>,
)
    requires
        r1 == abaqus_doc(nodes, elements),
        r2 == abaqus_doc(nodes, elements),
    ensures
        r1 == r2,
{
}

} // verus!
