use vstd::prelude::*;
use vstd::string::*;

verus! {

/// The longest run of body characters on one line of a PEM block.
pub const PEM_LINE_WIDTH: usize = 64;

/// The line that opens a certificate block.
pub open spec fn begin_marker() -> Seq<char> {
    "-----BEGIN CERTIFICATE-----\n"@
}

/// The line that closes a certificate block.
pub open spec fn end_marker() -> Seq<char> {
    "-----END CERTIFICATE-----\n"@
}

/// `body` cut into lines of 64 characters, the last one possibly shorter,
/// each closed by a line feed. An empty body gives no line at all.
pub open spec fn wrapped(body: Seq<char>) -> Seq<char>
    decreases body.len(),
{
    if body.len() == 0 {
        Seq::empty()
    } else if body.len() <= 64 {
        body.push('\n')
    } else {
        body.subrange(0, 64).push('\n') + wrapped(body.subrange(64, body.len() as int))
    }
}

/// One certificate block: the opening line, the wrapped body, the closing line.
pub open spec fn pem_block(body: Seq<char>) -> Seq<char> {
    begin_marker() + wrapped(body) + end_marker()
}

/// The blocks of all bodies, one after the other.
pub open spec fn pem_bundle(bodies: Seq<Seq<char>>) -> Seq<char>
    decreases bodies.len(),
{
    if bodies.len() == 0 {
        Seq::empty()
    } else {
        pem_bundle(bodies.drop_last()) + pem_block(bodies.last())
    }
}

/// How many lines a body of `n` characters is wrapped into.
pub open spec fn line_count(n: nat) -> nat {
    (n + 63) / 64
}

/// The `k`-th line of a wrapped body, without its line feed.
pub open spec fn line_of(body: Seq<char>, k: int) -> Seq<char> {
    let end = if 64 * (k + 1) <= body.len() {
        64 * (k + 1)
    } else {
        body.len() as int
    };
    body.subrange(64 * k, end)
}

/// A wrapped body is one line feed longer per line than the body itself.
pub proof fn lemma_wrapped_len(body: Seq<char>)
    ensures
        wrapped(body).len() == body.len() + line_count(body.len()),
    decreases body.len(),
{
    if body.len() > 64 {
        lemma_wrapped_len(body.subrange(64, body.len() as int));
    }
}

/// Line `k` of a wrapped body starts at position `65 * k`, holds between one
/// and 64 characters of the body, in order, and ends with a line feed.
pub proof fn lemma_wrapped_line(body: Seq<char>, k: int)
    requires
        0 <= k < line_count(body.len()),
    ensures
        1 <= line_of(body, k).len() <= 64,
        65 * k + line_of(body, k).len() < wrapped(body).len(),
        wrapped(body).subrange(65 * k, 65 * k + line_of(body, k).len()) == line_of(body, k),
        wrapped(body)[65 * k + line_of(body, k).len()] == '\n',
    decreases body.len(),
{
    lemma_wrapped_len(body);
    if body.len() <= 64 {
        assert(k == 0);
        assert(line_of(body, 0) =~= body);
        assert(wrapped(body).subrange(0, body.len() as int) =~= body);
    } else {
        let rest = body.subrange(64, body.len() as int);
        let head = body.subrange(0, 64).push('\n');
        lemma_wrapped_len(rest);
        if k == 0 {
            assert(line_of(body, 0) =~= body.subrange(0, 64));
            assert(wrapped(body).subrange(0, 64) =~= body.subrange(0, 64));
        } else {
            lemma_wrapped_line(rest, k - 1);
            assert(line_of(rest, k - 1) =~= line_of(body, k));
            let n = line_of(body, k).len() as int;
            assert(wrapped(body).subrange(65 * k, 65 * k + n) =~= wrapped(rest).subrange(
                65 * (k - 1),
                65 * (k - 1) + n,
            ));
            assert(wrapped(body)[65 * k + n] == wrapped(rest)[65 * (k - 1) + n]);
        }
    }
}

/// The lines of a wrapped body, put together again, are the body.
pub proof fn lemma_lines_cover_body(body: Seq<char>, i: int)
    requires
        0 <= i < body.len(),
    ensures
        0 <= i / 64 < line_count(body.len()),
        0 <= i % 64 < line_of(body, i / 64).len(),
        line_of(body, i / 64)[i % 64] == body[i],
{
}

/// Every block opens with the opening line and closes with the closing line,
/// and between the two stands the wrapped body and nothing else.
pub proof fn lemma_block_shape(body: Seq<char>)
    ensures
        pem_block(body).len() == begin_marker().len() + wrapped(body).len() + end_marker().len(),
        pem_block(body).subrange(0, begin_marker().len() as int) == begin_marker(),
        pem_block(body).subrange(
            begin_marker().len() as int,
            (begin_marker().len() + wrapped(body).len()) as int,
        ) == wrapped(body),
        pem_block(body).subrange(
            (begin_marker().len() + wrapped(body).len()) as int,
            pem_block(body).len() as int,
        ) == end_marker(),
{
    let b = pem_block(body);
    assert(b.subrange(0, begin_marker().len() as int) =~= begin_marker());
    assert(b.subrange(
        begin_marker().len() as int,
        (begin_marker().len() + wrapped(body).len()) as int,
    )
        =~= wrapped(body));
    assert(b.subrange((begin_marker().len() + wrapped(body).len()) as int, b.len() as int)
        =~= end_marker());
}

/// A bundle holds one block for each body, in the order of the bodies: the
/// block of body `i` starts where the bundle of the bodies before it ends.
pub proof fn lemma_bundle_block(bodies: Seq<Seq<char>>, i: int)
    requires
        0 <= i < bodies.len(),
    ensures
        pem_bundle(bodies.take(i)).len() + pem_block(bodies[i]).len() <= pem_bundle(bodies).len(),
        pem_bundle(bodies).subrange(
            pem_bundle(bodies.take(i)).len() as int,
            (pem_bundle(bodies.take(i)).len() + pem_block(bodies[i]).len()) as int,
        ) == pem_block(bodies[i]),
    decreases bodies.len(),
{
    let front = bodies.drop_last();
    if i == bodies.len() - 1 {
        assert(bodies.take(i) =~= front);
        assert(pem_bundle(bodies).subrange(
            pem_bundle(front).len() as int,
            (pem_bundle(front).len() + pem_block(bodies[i]).len()) as int,
        ) =~= pem_block(bodies[i]));
    } else {
        lemma_bundle_block(front, i);
        assert(front.take(i) =~= bodies.take(i));
        let start = pem_bundle(bodies.take(i)).len() as int;
        let end = start + pem_block(bodies[i]).len();
        assert(pem_bundle(bodies).subrange(start, end) =~= pem_bundle(front).subrange(start, end));
    }
}

/// Appends the lines of `body` to `out`.
pub fn push_wrapped(out: &mut String, body: &str)
    ensures
        final(out)@ == old(out)@ + wrapped(body@),
{
    let ascii = body.is_ascii();
    let n = body.unicode_len();
    let mut i: usize = 0;
    proof {
        assert(body@.subrange(0, n as int) =~= body@);
    }
    while i < n
        invariant
            i <= n,
            n == body@.len(),
            ascii == body.is_ascii(),
            out@ + wrapped(body@.subrange(i as int, n as int)) == old(out)@ + wrapped(body@),
        decreases n - i,
    {
        let end: usize = if n - i > PEM_LINE_WIDTH {
            i + PEM_LINE_WIDTH
        } else {
            n
        };
        let line = if ascii {
            body.substring_ascii(i, end)
        } else {
            body.substring_char(i, end)
        };
        proof {
            reveal_strlit("\n");
            let rest = body@.subrange(i as int, n as int);
            assert(line@ =~= rest.subrange(0, end - i));
            assert("\n"@ =~= seq!['\n']);
            if n - i > 64 {
                assert(rest.subrange(64, rest.len() as int) =~= body@.subrange(
                    end as int,
                    n as int,
                ));
                assert(out@ + line@ + "\n"@ + wrapped(body@.subrange(end as int, n as int)) =~= out@
                    + wrapped(rest));
            } else {
                assert(rest.subrange(0, end - i) =~= rest);
                assert(wrapped(body@.subrange(end as int, n as int)) =~= Seq::<char>::empty());
                assert(out@ + line@ + "\n"@ + wrapped(body@.subrange(end as int, n as int)) =~= out@
                    + wrapped(rest));
            }
        }
        out.append(line);
        out.append("\n");
        i = end;
    }
    proof {
        assert(wrapped(body@.subrange(n as int, n as int)) =~= Seq::<char>::empty());
    }
}

/// Appends the certificate block of `body` to `out`.
pub fn push_pem_block(out: &mut String, body: &str)
    ensures
        final(out)@ == old(out)@ + pem_block(body@),
{
    out.append("-----BEGIN CERTIFICATE-----\n");
    push_wrapped(out, body);
    out.append("-----END CERTIFICATE-----\n");
    proof {
        assert(out@ =~= old(out)@ + pem_block(body@));
    }
}

} // verus!
