//! Caller-visible error values of the inference engine, with their
//! descriptive messages.

use vstd::prelude::*;

verus! {

/// Everything a call into the engine can fail with.  Every error is a
/// value returned to the caller; no error destroys a previously
/// compiled plan or partially commits recurrent state.
#[derive(Debug, PartialEq, Eq)]
pub enum EngineError {
    /// The serialized graph could not be parsed, type-checked or
    /// optimized into a runnable plan.
    Compilation { detail: String },
    /// Inference was attempted before any successful compilation.
    ModelNotReady,
    /// The primary input does not have the contracted length.
    InputShape { expected: usize, got: usize },
    /// The auxiliary input does not have the contracted length.
    AuxShape { expected: usize, got: usize },
    /// The forward pass itself, or reading its output back, failed.
    Execution { detail: String },
    /// The pass produced fewer outputs than the contract requires.
    Output { expected: usize, got: usize },
    /// A returned recurrent tensor does not have the contracted length.
    StateShape { expected: usize, got: usize },
    /// The pass returned no logits at all.
    NoOutput,
    /// The maximum logit sits outside the three-action range.
    Decode { index: usize },
}

/// Decimal digits of `n`, most significant first.
pub open spec fn dec_seq(n: nat) -> Seq<char>
    decreases n,
{
    if n < 10 {
        seq![digit_char(n)]
    } else {
        dec_seq(n / 10) + seq![digit_char(n % 10)]
    }
}

/// The character of one decimal digit.
pub open spec fn digit_char(d: nat) -> char
    recommends
        d < 10,
{
    if d == 0 {
        '0'
    } else if d == 1 {
        '1'
    } else if d == 2 {
        '2'
    } else if d == 3 {
        '3'
    } else if d == 4 {
        '4'
    } else if d == 5 {
        '5'
    } else if d == 6 {
        '6'
    } else if d == 7 {
        '7'
    } else if d == 8 {
        '8'
    } else {
        '9'
    }
}

/// Appends the decimal rendering of `n` to `s`.
pub fn push_dec(s: &mut String, n: usize)
    ensures
        final(s)@ == old(s)@ + dec_seq(n as nat),
    decreases n,
{
    if n >= 10 {
        push_dec(s, n / 10);
    }
    let d: usize = n % 10;
    let ds: &str = if d == 0 {
        "0"
    } else if d == 1 {
        "1"
    } else if d == 2 {
        "2"
    } else if d == 3 {
        "3"
    } else if d == 4 {
        "4"
    } else if d == 5 {
        "5"
    } else if d == 6 {
        "6"
    } else if d == 7 {
        "7"
    } else if d == 8 {
        "8"
    } else {
        "9"
    };
    proof {
        reveal_strlit("0");
        reveal_strlit("1");
        reveal_strlit("2");
        reveal_strlit("3");
        reveal_strlit("4");
        reveal_strlit("5");
        reveal_strlit("6");
        reveal_strlit("7");
        reveal_strlit("8");
        reveal_strlit("9");
        assert(ds@ =~= seq![digit_char(d as nat)]);
        if n >= 10 {
            assert(dec_seq(n as nat) == dec_seq(n as nat / 10) + seq![digit_char(n as nat % 10)]);
        }
    }
    s.append(ds);
    proof {
        assert(s@ =~= old(s)@ + dec_seq(n as nat));
    }
}

impl EngineError {
    /// The descriptive message of the error, character for character.
    pub open spec fn message_spec(&self) -> Seq<char> {
        match self {
            EngineError::Compilation { detail } => "Failed to compile model: "@ + detail@,
            EngineError::ModelNotReady => "Model not initialized"@,
            EngineError::InputShape { expected, got } => "Expected "@ + dec_seq(expected as nat)
                + " input values, got "@ + dec_seq(got as nat),
            EngineError::AuxShape { expected, got } => "Expected "@ + dec_seq(expected as nat)
                + " auxiliary values, got "@ + dec_seq(got as nat),
            EngineError::Execution { detail } => "Model execution failed: "@ + detail@,
            EngineError::Output { expected, got } => "Expected "@ + dec_seq(expected as nat)
                + " model outputs, got "@ + dec_seq(got as nat),
            EngineError::StateShape { expected, got } => "Expected "@ + dec_seq(expected as nat)
                + " state values, got "@ + dec_seq(got as nat),
            EngineError::NoOutput => "Model returned no output"@,
            EngineError::Decode { index } => "Invalid action index: "@ + dec_seq(index as nat),
        }
    }

    /// Renders the error as its descriptive message.
    pub fn message(&self) -> (s: String)
        ensures
            s@ == self.message_spec(),
    {
        let mut s = String::new();
        match self {
            EngineError::Compilation { detail } => {
                s.append("Failed to compile model: ");
                s.append(detail.as_str());
            },
            EngineError::ModelNotReady => {
                s.append("Model not initialized");
            },
            EngineError::InputShape { expected, got } => {
                s.append("Expected ");
                push_dec(&mut s, *expected);
                s.append(" input values, got ");
                push_dec(&mut s, *got);
            },
            EngineError::AuxShape { expected, got } => {
                s.append("Expected ");
                push_dec(&mut s, *expected);
                s.append(" auxiliary values, got ");
                push_dec(&mut s, *got);
            },
            EngineError::Execution { detail } => {
                s.append("Model execution failed: ");
                s.append(detail.as_str());
            },
            EngineError::Output { expected, got } => {
                s.append("Expected ");
                push_dec(&mut s, *expected);
                s.append(" model outputs, got ");
                push_dec(&mut s, *got);
            },
            EngineError::StateShape { expected, got } => {
                s.append("Expected ");
                push_dec(&mut s, *expected);
                s.append(" state values, got ");
                push_dec(&mut s, *got);
            },
            EngineError::NoOutput => {
                s.append("Model returned no output");
            },
            EngineError::Decode { index } => {
                s.append("Invalid action index: ");
                push_dec(&mut s, *index);
            },
        }
        proof {
            assert(s@ =~= self.message_spec());
        }
        s
    }
}

} // verus!
