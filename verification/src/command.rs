use vstd::prelude::*;

verus! {

/// A program to start and the arguments to hand it.
#[derive(Debug, Clone, PartialEq)]
pub struct CommandLine {
    /// The program.
    pub program: String,
    /// Its arguments, in order.
    pub args: Vec<String>,
}

impl View for CommandLine {
    type V = (Seq<char>, Seq<Seq<char>>);

    open spec fn view(&self) -> (Seq<char>, Seq<Seq<char>>) {
        (self.program@, self.args.deep_view())
    }
}

/// Appends a copy of each text of `items` to `out`.
pub fn push_all(out: &mut Vec<String>, items: &[String])
    ensures
        final(out).deep_view() == old(out).deep_view() + items.deep_view(),
{
    let ghost start = out.deep_view();
    let n = items.len();
    for i in 0..n
        invariant
            n == items@.len(),
            out.deep_view() == start + items.deep_view().take(i as int),
    {
        let ghost prev = out@;
        let ghost prev_deep = out.deep_view();
        let item = items[i].clone();
        out.push(item);
        proof {
            let want = start + items.deep_view().take(i + 1);
            assert(prev_deep.len() == prev.len());
            assert(want.len() == prev.len() + 1);
            assert forall|k: int| 0 <= k < out@.len() implies #[trigger] out.deep_view()[k]
                == want[k] by {
                if k < prev.len() {
                    assert(out@[k] == prev[k]);
                    assert(prev_deep[k] == prev[k]@);
                } else {
                    assert(out@[k] == item);
                    assert(items.deep_view()[i as int] == items@[i as int]@);
                }
            }
            assert(out.deep_view() =~= want);
        }
    }
    assert(items.deep_view().take(n as int) =~= items.deep_view());
}

/// Appends a copy of the text `s` to `out`.
pub fn push_text(out: &mut Vec<String>, s: &str)
    ensures
        final(out).deep_view() == old(out).deep_view().push(s@),
{
    let ghost start = out.deep_view();
    out.push(String::from_str(s));
    assert(out.deep_view() =~= start.push(s@));
}

} // verus!
