//! What has been observed, one look after the other.
use vstd::prelude::*;

verus! {

/// For how many looks, up to the last one, the answer has been yes without a break.
pub open spec fn trailing_run(answers: Seq<bool>) -> nat
    decreases answers.len(),
{
    if answers.len() == 0 || !answers.last() {
        0
    } else {
        trailing_run(answers.drop_last()) + 1
    }
}

/// Were the last `n` answers all yes?
pub open spec fn last_all(answers: Seq<bool>, n: int) -> bool {
    &&& n <= answers.len()
    &&& forall|i: int| answers.len() - n <= i < answers.len() ==> #[trigger] answers[i]
}

/// A run has length `n` or more exactly if the last `n` answers were yes.
pub proof fn lemma_trailing_run(answers: Seq<bool>, n: int)
    requires
        0 <= n,
    ensures
        trailing_run(answers) >= n <==> last_all(answers, n),
        trailing_run(answers) <= answers.len(),
    decreases answers.len(),
{
    if answers.len() > 0 {
        let before = answers.drop_last();
        lemma_trailing_run(before, if n > 0 { n - 1 } else { 0 });
        if n > 0 {
            if last_all(answers, n) {
                assert(answers[answers.len() - 1]);
                assert forall|i: int| before.len() - (n - 1) <= i < before.len() implies
                    #[trigger] before[i] by {
                    assert(answers[i]);
                }
            }
            if answers.last() && last_all(before, n - 1) {
                assert forall|i: int| answers.len() - n <= i < answers.len() implies
                    #[trigger] answers[i] by {
                    if i < before.len() {
                        assert(before[i]);
                    }
                }
            }
        }
    }
}

/// One more look lengthens the run by one if the answer is yes, and ends it otherwise.
pub proof fn lemma_trailing_run_push(answers: Seq<bool>, answer: bool)
    ensures
        trailing_run(answers.push(answer)) == if answer {
            trailing_run(answers) + 1
        } else {
            0
        },
{
    assert(answers.push(answer).drop_last() == answers);
}

/// A run of answers is what its words say: the answers in it are all yes, and the one before it, if
/// there is one, is no.
pub proof fn a_run_ends_at_the_last_no(answers: Seq<bool>)
    ensures
        trailing_run(answers) <= answers.len(),
        forall|i: int| answers.len() - trailing_run(answers) <= i < answers.len() ==> #[trigger] answers[i],
        trailing_run(answers) < answers.len() ==> !answers[answers.len() - trailing_run(answers) - 1],
{
    let n = trailing_run(answers) as int;
    lemma_trailing_run(answers, n);
    if n < answers.len() {
        lemma_trailing_run(answers, n + 1);
        if answers[answers.len() - n - 1] {
            assert forall|i: int| answers.len() - (n + 1) <= i < answers.len() implies
                #[trigger] answers[i] by {}
        }
    }
}

} // verus!
