use rand::Rng;
use vstd::prelude::*;

verus! {

/// The thread-local generator of the rand crate, carried as an opaque value
/// and threaded through every random draw.
#[verifier::external_type_specification]
#[verifier::external_body]
pub struct ExThreadRng(rand::rngs::ThreadRng);

/// Relies on rand::thread_rng: it hands out the thread-local generator.
/// Nothing is promised of the draws it will produce.
#[verifier::external_body]
fn new_rng() -> rand::rngs::ThreadRng {
    rand::thread_rng()
}

/// Relies on Rng::gen_range over `0..bound`: the sample lies in the
/// half-open range, and the call panics only on an empty range, which the
/// precondition rules out.
#[verifier::external_body]
fn rand_below(rng: &mut rand::rngs::ThreadRng, bound: usize) -> (r: usize)
    requires
        bound >= 1,
    ensures
        r < bound,
{
    rng.gen_range(0..bound)
}

/// What one rendered line looks like for a terminal of `width` columns:
/// `pad` leading spaces with `pad` strictly below the width, then at most
/// three characters, each a member of `pool`.
pub open spec fn is_frame_line(line: Seq<char>, pool: Seq<char>, width: int, pad: int) -> bool {
    &&& 0 <= pad < width
    &&& pad <= line.len() <= pad + 3
    &&& forall|k: int| 0 <= k < pad ==> line[k] == ' '
    &&& forall|k: int| pad <= k < line.len() ==> pool.contains(line[k])
}

/// Produces one line of the scrolling backdrop: a uniformly drawn run of
/// leading spaces shorter than the terminal width, then zero to three
/// characters drawn from the pool. The line never exceeds `width + 2`
/// characters.
pub fn scroll_line(rng: &mut rand::rngs::ThreadRng, chars: &Vec<char>, width: usize) -> (line: Vec<
    char,
>)
    requires
        chars@.len() >= 1,
        width >= 1,
    ensures
        line@.len() <= width + 2,
        exists|pad: int| #[trigger] is_frame_line(line@, chars@, width as int, pad),
{
    let mut line: Vec<char> = Vec::new();
    let pad = rand_below(rng, width);
    let mut i: usize = 0;
    while i < pad
        invariant
            i <= pad,
            line@.len() == i,
            forall|k: int| 0 <= k < i ==> line@[k] == ' ',
        decreases pad - i,
    {
        line.push(' ');
        i = i + 1;
    }
    let count = rand_below(rng, 4);
    let mut j: usize = 0;
    while j < count
        invariant
            j <= count,
            count < 4,
            chars@.len() >= 1,
            line@.len() == pad + j,
            forall|k: int| 0 <= k < pad ==> line@[k] == ' ',
            forall|k: int| pad <= k < line@.len() ==> chars@.contains(line@[k]),
        decreases count - j,
    {
        let idx = rand_below(rng, chars.len());
        line.push(chars[idx]);
        j = j + 1;
    }
    assert(is_frame_line(line@, chars@, width as int, pad as int));
    line
}

/// One tick of the backdrop: draws a fresh handle to the thread-local
/// generator and renders one line for a terminal of `width` columns.
pub fn scroll_background(chars: &Vec<char>, width: usize) -> (line: Vec<char>)
    requires
        chars@.len() >= 1,
        width >= 1,
    ensures
        line@.len() <= width + 2,
        exists|pad: int| #[trigger] is_frame_line(line@, chars@, width as int, pad),
{
    let mut rng = new_rng();
    scroll_line(&mut rng, chars, width)
}

} // verus!
