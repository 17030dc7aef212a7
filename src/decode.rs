//! The decoding loop as a state machine.
//!
//! One `Generation` belongs to one request. The driver asks `poll` what to
//! do next; on `Next::Infer` it runs the model on `tokens()` and hands the
//! scores to `advance` (or `step`, which also decodes the chosen token). A
//! failed model run or a closed consumer is reported with `abort`. States:
//! `Stepping`, then `Done` after the budget, or `Failed` at the first error.

use vstd::prelude::*;

use crate::error::GenerateError;
use crate::logits::{Logits, last_row, last_row_keys, shape_ok};
use crate::select::{best_index, select_token};
use crate::tokenizer::{Vocabulary, decoded, result_view};

verus! {

/// Fixed parameters of one generation.
#[derive(Clone, Copy, Debug, PartialEq, Eq, Structural)]
pub struct DecodeConfig {
    /// Number of tokens to generate.
    pub budget: usize,
    /// Size of the top-K truncation of each score row.
    pub top_k: usize,
    /// Longest token sequence the model accepts (its context window).
    pub context_limit: usize,
}

/// Where a generation stands.
#[derive(Clone, Copy, Debug, PartialEq, Eq, Structural)]
pub enum Status {
    Stepping,
    Done,
    Failed(GenerateError),
}

/// What the driver does next.
#[derive(Clone, Copy, Debug, PartialEq, Eq, Structural)]
pub enum Next {
    /// Run the model on the current token sequence.
    Infer,
    /// The budget is spent: end the stream normally.
    Finished,
    /// The generation failed with this error: end the stream.
    Aborted(GenerateError),
}

/// Abstract state of a generation.
pub struct GenerationView {
    pub tokens: Seq<u32>,
    pub prompt_len: nat,
    pub config: DecodeConfig,
    pub status: Status,
}

/// The token the policy picks from the scores `l`.
pub open spec fn chosen_token(l: Logits) -> u32 {
    best_index(last_row_keys(l)) as u32
}

/// The tokens picked from each score tensor of `outs`, in order.
pub open spec fn chosen_tokens(outs: Seq<Logits>) -> Seq<u32> {
    outs.map_values(|l: Logits| chosen_token(l))
}

/// The state in which a request starts.
pub open spec fn initial(prompt: Seq<u32>, config: DecodeConfig) -> GenerationView {
    GenerationView { tokens: prompt, prompt_len: prompt.len(), config, status: Status::Stepping }
}

impl GenerationView {
    /// Tokens generated so far.
    pub open spec fn steps(self) -> int {
        self.tokens.len() - self.prompt_len
    }

    pub open spec fn wf(self) -> bool {
        &&& 1 <= self.prompt_len <= self.tokens.len()
        &&& self.steps() <= self.config.budget
        &&& self.config.top_k >= 1
        &&& self.status == Status::Done ==> self.steps() == self.config.budget
    }

    /// A model run is due.
    pub open spec fn ready(self) -> bool {
        &&& self.status == Status::Stepping
        &&& self.steps() < self.config.budget
        &&& self.tokens.len() < self.config.context_limit
    }

    /// The state after a poll, and the answer.
    pub open spec fn polled(self) -> (GenerationView, Next) {
        match self.status {
            Status::Failed(e) => (self, Next::Aborted(e)),
            Status::Done => (self, Next::Finished),
            Status::Stepping => {
                if self.steps() >= self.config.budget {
                    (GenerationView { status: Status::Done, ..self }, Next::Finished)
                } else if self.tokens.len() >= self.config.context_limit {
                    (
                        GenerationView {
                            status: Status::Failed(GenerateError::ContextOverflow),
                            ..self
                        },
                        Next::Aborted(GenerateError::ContextOverflow),
                    )
                } else {
                    (self, Next::Infer)
                }
            },
        }
    }

    /// The state after the scores `l` of a model run are taken in, and the
    /// token appended.
    pub open spec fn advanced(self, l: Logits) -> (GenerationView, Result<u32, GenerateError>) {
        if shape_ok(l) {
            (
                GenerationView { tokens: self.tokens.push(chosen_token(l)), ..self },
                Ok(chosen_token(l)),
            )
        } else {
            (
                GenerationView { status: Status::Failed(GenerateError::Inference), ..self },
                Err(GenerateError::Inference),
            )
        }
    }

    /// The state after an error: a running generation fails with it, a
    /// finished or failed one stays as it is.
    pub open spec fn aborted(self, e: GenerateError) -> GenerationView {
        if self.status == Status::Stepping {
            GenerationView { status: Status::Failed(e), ..self }
        } else {
            self
        }
    }
}

/// The state reached by polling and taking in the score tensors of `outs`
/// one per model run, until the machine asks for no more runs or `outs` is
/// used up.
pub open spec fn run(g: GenerationView, outs: Seq<Logits>) -> GenerationView
    decreases outs.len(),
{
    let p = g.polled();
    if p.1 == Next::Infer && outs.len() > 0 {
        run(p.0.advanced(outs[0]).0, outs.drop_first())
    } else {
        p.0
    }
}

/// The token sequences submitted to the model along `run(g, outs)`.
pub open spec fn run_inputs(g: GenerationView, outs: Seq<Logits>) -> Seq<Seq<u32>>
    decreases outs.len(),
{
    let p = g.polled();
    if p.1 == Next::Infer && outs.len() > 0 {
        seq![p.0.tokens] + run_inputs(p.0.advanced(outs[0]).0, outs.drop_first())
    } else {
        seq![]
    }
}

proof fn lemma_run_success(g: GenerationView, outs: Seq<Logits>)
    requires
        g.wf(),
        g.status == Status::Stepping,
        outs.len() == g.config.budget - g.steps(),
        g.tokens.len() + outs.len() <= g.config.context_limit,
        forall|i: int| 0 <= i < outs.len() ==> shape_ok(#[trigger] outs[i]),
    ensures
        run(g, outs).status == Status::Done,
        run(g, outs).tokens == g.tokens + chosen_tokens(outs),
        run_inputs(g, outs).len() == outs.len(),
        forall|i: int|
            0 <= i < outs.len() ==> #[trigger] run_inputs(g, outs)[i] == run(g, outs).tokens.subrange(
                0,
                g.tokens.len() + i,
            ),
    decreases outs.len(),
{
    if outs.len() == 0 {
        assert(g.tokens + chosen_tokens(outs) =~= g.tokens);
    } else {
        let next = g.advanced(outs[0]).0;
        let rest = outs.drop_first();
        assert forall|i: int| 0 <= i < rest.len() implies shape_ok(#[trigger] rest[i]) by {
            assert(rest[i] == outs[i + 1]);
        }
        lemma_run_success(next, rest);
        let fin = run(g, outs);
        assert(chosen_tokens(outs) =~= seq![chosen_token(outs[0])] + chosen_tokens(rest));
        assert(fin.tokens =~= g.tokens + chosen_tokens(outs));
        let ins = run_inputs(g, outs);
        assert forall|i: int| 0 <= i < outs.len() implies #[trigger] ins[i] == fin.tokens.subrange(
            0,
            g.tokens.len() + i,
        ) by {
            if i == 0 {
                assert(ins[0] == g.tokens);
                assert(fin.tokens.subrange(0, g.tokens.len() as int) =~= g.tokens);
            } else {
                assert(ins[i] == run_inputs(next, rest)[i - 1]);
            }
        }
    }
}

/// On success the loop takes exactly `budget` steps: it submits `budget`
/// token sequences to the model, the first being the prompt and each one
/// token longer than the one before, appends the policy's pick from each
/// run's scores, and ends `Done` with the prompt followed by the picks.
pub proof fn law_run_emits_budget(prompt: Seq<u32>, config: DecodeConfig, outs: Seq<Logits>)
    requires
        prompt.len() >= 1,
        config.top_k >= 1,
        outs.len() == config.budget,
        prompt.len() + config.budget <= config.context_limit,
        forall|i: int| 0 <= i < outs.len() ==> shape_ok(#[trigger] outs[i]),
    ensures
        run(initial(prompt, config), outs).status == Status::Done,
        run(initial(prompt, config), outs).tokens == prompt + chosen_tokens(outs),
        run_inputs(initial(prompt, config), outs).len() == config.budget,
        forall|i: int|
            0 <= i < config.budget ==> (#[trigger] run_inputs(initial(prompt, config), outs)[i]).len()
                == prompt.len() + i,
        forall|i: int|
            0 <= i < config.budget ==> #[trigger] run_inputs(initial(prompt, config), outs)[i]
                == run(initial(prompt, config), outs).tokens.subrange(0, prompt.len() + i),
{
    let g = initial(prompt, config);
    lemma_run_success(g, outs);
    assert forall|i: int| 0 <= i < config.budget implies (#[trigger] run_inputs(g, outs)[i]).len()
        == prompt.len() + i by {
        assert(run_inputs(g, outs)[i] == run(g, outs).tokens.subrange(0, prompt.len() + i));
    }
}

/// Once a generation is aborted (its consumer gone, say) it never asks for
/// another model run: polling answers something other than `Infer` and
/// leaves the state as it is, whatever scores are offered afterwards.
pub proof fn law_abort_is_final(g: GenerationView, e: GenerateError, outs: Seq<Logits>)
    requires
        g.wf(),
    ensures
        g.aborted(e).polled().1 != Next::Infer,
        g.aborted(e).polled().0 == g.aborted(e),
        run(g.aborted(e), outs) == g.aborted(e),
        run_inputs(g.aborted(e), outs).len() == 0,
{
}

/// One generation request in flight.
pub struct Generation {
    tokens: Vec<u32>,
    prompt_len: usize,
    config: DecodeConfig,
    status: Status,
}

impl View for Generation {
    type V = GenerationView;

    closed spec fn view(&self) -> GenerationView {
        GenerationView {
            tokens: self.tokens@,
            prompt_len: self.prompt_len as nat,
            config: self.config,
            status: self.status,
        }
    }
}

impl Generation {
    /// Starts a generation from the encoded prompt; an empty prompt is
    /// refused.
    pub fn new(prompt: Vec<u32>, config: DecodeConfig) -> (r: Result<Generation, GenerateError>)
        requires
            config.top_k >= 1,
        ensures
            r is Err <==> prompt@.len() == 0,
            r matches Err(e) ==> e == GenerateError::EmptyPrompt,
            r matches Ok(g) ==> g@ == initial(prompt@, config) && g@.wf(),
    {
        if prompt.len() == 0 {
            return Err(GenerateError::EmptyPrompt);
        }
        let prompt_len = prompt.len();
        Ok(Generation { tokens: prompt, prompt_len, config, status: Status::Stepping })
    }

    /// Decides the next move; ends the generation when the budget is spent
    /// or the sequence has reached the context window.
    pub fn poll(&mut self) -> (n: Next)
        requires
            old(self)@.wf(),
        ensures
            (final(self)@, n) == old(self)@.polled(),
            final(self)@.wf(),
            n == Next::Infer <==> old(self)@.ready(),
    {
        match self.status {
            Status::Failed(e) => Next::Aborted(e),
            Status::Done => Next::Finished,
            Status::Stepping => {
                if self.tokens.len() - self.prompt_len >= self.config.budget {
                    self.status = Status::Done;
                    Next::Finished
                } else if self.tokens.len() >= self.config.context_limit {
                    self.status = Status::Failed(GenerateError::ContextOverflow);
                    Next::Aborted(GenerateError::ContextOverflow)
                } else {
                    Next::Infer
                }
            },
        }
    }

    /// Takes in the scores of a model run on `tokens()`: picks the next
    /// token from the last position's row and appends it. Scores of a wrong
    /// shape fail the generation with `Inference`.
    pub fn advance(&mut self, l: &Logits) -> (r: Result<u32, GenerateError>)
        requires
            old(self)@.wf(),
            old(self)@.ready(),
        ensures
            (final(self)@, r) == old(self)@.advanced(*l),
            final(self)@.wf(),
    {
        match last_row(l) {
            Err(e) => {
                self.status = Status::Failed(e);
                Err(e)
            },
            Ok(row) => {
                proof {
                    let lo = (l.seq_len - 1) * l.vocab_size;
                    let hi = l.seq_len * l.vocab_size;
                    assert(hi - lo == l.vocab_size) by (nonlinear_arith)
                        requires
                            lo == (l.seq_len - 1) * l.vocab_size,
                            hi == l.seq_len * l.vocab_size,
                    ;
                    assert(row@.len() == l.vocab_size);
                }
                let t = select_token(&row, self.config.top_k);
                let token = t as u32;
                self.tokens.push(token);
                Ok(token)
            },
        }
    }

    /// One decoding step: takes in the scores of a model run on `tokens()`,
    /// appends the picked token and returns its text fragment, the event to
    /// send. A token that does not decode fails the generation.
    pub fn step(&mut self, vocabulary: &Vocabulary, l: &Logits) -> (r: Result<
        String,
        GenerateError,
    >)
        requires
            old(self)@.wf(),
            old(self)@.ready(),
        ensures
            final(self)@.wf(),
            result_view(r) == (if shape_ok(*l) {
                decoded(vocabulary@, chosen_token(*l))
            } else {
                Err(GenerateError::Inference)
            }),
            shape_ok(*l) ==> final(self)@.tokens == old(self)@.tokens.push(chosen_token(*l)),
            r is Ok ==> final(self)@ == old(self)@.advanced(*l).0,
            r matches Err(e) ==> final(self)@ == old(self)@.advanced(*l).0.aborted(e),
    {
        match self.advance(l) {
            Err(e) => Err(e),
            Ok(token) => {
                let fragment = vocabulary.decode(token);
                if let Err(e) = fragment {
                    self.abort(e);
                }
                fragment
            },
        }
    }

    /// Records an error met outside the machine (a failed model run, a
    /// closed consumer). The first error stays.
    pub fn abort(&mut self, e: GenerateError)
        requires
            old(self)@.wf(),
        ensures
            final(self)@ == old(self)@.aborted(e),
            final(self)@.wf(),
    {
        if self.status == Status::Stepping {
            self.status = Status::Failed(e);
        }
    }

    /// The current token sequence: the prompt and the tokens generated so
    /// far.
    pub fn tokens(&self) -> (r: &Vec<u32>)
        ensures
            r@ == self@.tokens,
    {
        &self.tokens
    }

    pub fn status(&self) -> (r: Status)
        ensures
            r == self@.status,
    {
        self.status
    }

    /// Number of tokens generated so far.
    pub fn steps(&self) -> (r: usize)
        requires
            self@.wf(),
        ensures
            r == self@.steps(),
    {
        self.tokens.len() - self.prompt_len
    }
}

} // verus!
