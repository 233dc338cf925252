//! The syntax grammar of Tortuga as a recognizer over the kinds of tokens: for each rule,
//! where reading it from a position ends, or why it cannot be read there.
//!
//! The grammar is LL(1): every choice between alternatives is made on the kind of the next
//! token, and a rule fails at the first token that none of its alternatives accepts.
use crate::compiler::parser::{is_comparison_kind, is_inequality_kind, is_name_kind};
use crate::compiler::token::{Kind, Token};
use vstd::prelude::*;

verus! {

/// Where reading a rule ends (`Ok`), or why it cannot be read: `Err(None)` where the tokens
/// end inside the rule, `Err(Some(n))` where the token at `n` is one that no rule accepts.
pub type Outcome = Result<int, Option<int>>;

/// The kinds of a sequence of tokens.
pub open spec fn kinds(tokens: Seq<Token>) -> Seq<Kind> {
    tokens.map_values(|t: Token| t@.1)
}

/// Whether the token at `i` is one of the kinds that `p` accepts.
pub open spec fn next_is(k: Seq<Kind>, i: int, p: spec_fn(Kind) -> bool) -> bool {
    0 <= i < k.len() && p(k[i])
}

/// Reads one token of a kind that `p` accepts.
pub open spec fn expect(k: Seq<Kind>, i: int, p: spec_fn(Kind) -> bool) -> Outcome {
    if 0 <= i < k.len() {
        if p(k[i]) {
            Ok(i + 1)
        } else {
            Err(Some(i))
        }
    } else {
        Err(None)
    }
}

/// Reads one token of the given kind.
pub open spec fn expect_kind(k: Seq<Kind>, i: int, kind: Kind) -> Outcome {
    expect(k, i, |x: Kind| x == kind)
}

/// Whether a rule read from `i` ended at `j`, past `i` and within the tokens.
pub open spec fn advanced(k: Seq<Kind>, i: int, j: int) -> bool {
    i < j <= k.len()
}

/// comparator: one of `<`, `>`, `<=`, `>=`, `=`, `<>`.
pub open spec fn comparator_rule(k: Seq<Kind>, i: int) -> Outcome {
    expect(k, i, |x: Kind| is_comparison_kind(x))
}

/// inequality: one of `<`, `>`, `<=`, `>=`.
pub open spec fn inequality_rule(k: Seq<Kind>, i: int) -> Outcome {
    expect(k, i, |x: Kind| is_inequality_kind(x))
}

/// name: `_`, or `@` followed by an identifier.
pub open spec fn name_rule(k: Seq<Kind>, i: int) -> Outcome {
    match expect(k, i, |x: Kind| is_name_kind(x)) {
        Ok(j) => if k[i] == Kind::At {
            expect_kind(k, j, Kind::Identifier)
        } else {
            Ok(j)
        },
        Err(e) => Err(e),
    }
}

/// number, once its first token (`-` or a number at `i - 1`) was read: after a `-`, a number.
pub open spec fn number_rest(k: Seq<Kind>, i: int) -> Outcome {
    if k[i - 1] == Kind::Minus {
        expect_kind(k, i, Kind::Number)
    } else {
        Ok(i)
    }
}

/// expression: an assignment where a name comes first, else arithmetic.
pub open spec fn expression_rule(k: Seq<Kind>, i: int) -> Outcome
    decreases k.len() - i, 30nat,
{
    if next_is(k, i, |x: Kind| is_name_kind(x)) {
        assignment_rule(k, i)
    } else {
        arithmetic_rule(k, i)
    }
}

/// assignment: function `=` block.
pub open spec fn assignment_rule(k: Seq<Kind>, i: int) -> Outcome
    decreases k.len() - i, 29nat,
{
    match function_rule(k, i) {
        Ok(j) => if !advanced(k, i, j) {
            Err(None)
        } else {
            match expect_kind(k, j, Kind::Equal) {
                Ok(j2) => block_rule(k, j2),
                Err(e) => Err(e),
            }
        },
        Err(e) => Err(e),
    }
}

/// function: name, then parameters where a `(` follows.
pub open spec fn function_rule(k: Seq<Kind>, i: int) -> Outcome
    decreases k.len() - i, 28nat,
{
    match name_rule(k, i) {
        Ok(j) => if !advanced(k, i, j) {
            Err(None)
        } else {
            optional_parameters_rule(k, j)
        },
        Err(e) => Err(e),
    }
}

/// Parameters where a `(` follows, else nothing.
pub open spec fn optional_parameters_rule(k: Seq<Kind>, i: int) -> Outcome
    decreases k.len() - i, 26nat,
{
    if next_is(k, i, |x: Kind| x == Kind::LeftParenthesis) {
        parameters_rule(k, i)
    } else {
        Ok(i)
    }
}

/// parameters: `(` pattern (`,` pattern)* `)`.
pub open spec fn parameters_rule(k: Seq<Kind>, i: int) -> Outcome
    decreases k.len() - i, 25nat,
{
    match expect_kind(k, i, Kind::LeftParenthesis) {
        Ok(j) => match pattern_rule(k, j) {
            Ok(j2) => if !advanced(k, j, j2) {
                Err(None)
            } else {
                parameters_tail_rule(k, j2)
            },
            Err(e) => Err(e),
        },
        Err(e) => Err(e),
    }
}

/// The rest of the parameters after a pattern: (`,` pattern)* `)`.
pub open spec fn parameters_tail_rule(k: Seq<Kind>, i: int) -> Outcome
    decreases k.len() - i, 25nat,
{
    if next_is(k, i, |x: Kind| x == Kind::Comma) {
        match pattern_rule(k, i + 1) {
            Ok(j) => if !advanced(k, i + 1, j) {
                Err(None)
            } else {
                parameters_tail_rule(k, j)
            },
            Err(e) => Err(e),
        }
    } else {
        expect_kind(k, i, Kind::RightParenthesis)
    }
}

/// pattern: where a name comes first, a refinement (name comparator arithmetic) or a
/// function (name, then parameters where a `(` follows); else bounds.
pub open spec fn pattern_rule(k: Seq<Kind>, i: int) -> Outcome
    decreases k.len() - i, 24nat,
{
    if next_is(k, i, |x: Kind| is_name_kind(x)) {
        match name_rule(k, i) {
            Ok(j) => if !advanced(k, i, j) {
                Err(None)
            } else if next_is(k, j, |x: Kind| is_comparison_kind(x)) {
                match comparator_rule(k, j) {
                    Ok(j2) => if !advanced(k, i, j2) {
                        Err(None)
                    } else {
                        arithmetic_rule(k, j2)
                    },
                    Err(e) => Err(e),
                }
            } else {
                optional_parameters_rule(k, j)
            },
            Err(e) => Err(e),
        }
    } else {
        bounds_rule(k, i)
    }
}

/// bounds: arithmetic inequality name inequality arithmetic.
pub open spec fn bounds_rule(k: Seq<Kind>, i: int) -> Outcome
    decreases k.len() - i, 23nat,
{
    match arithmetic_rule(k, i) {
        Ok(b) => if !advanced(k, i, b) {
            Err(None)
        } else {
            match inequality_rule(k, b) {
                Ok(c) => match name_rule(k, c) {
                    Ok(d) => match inequality_rule(k, d) {
                        Ok(e) => if !advanced(k, i, e) {
                            Err(None)
                        } else {
                            arithmetic_rule(k, e)
                        },
                        Err(x) => Err(x),
                    },
                    Err(x) => Err(x),
                },
                Err(x) => Err(x),
            }
        },
        Err(x) => Err(x),
    }
}

/// block: `[` expression expression expression* `]` where a `[` comes first, else one
/// expression.
pub open spec fn block_rule(k: Seq<Kind>, i: int) -> Outcome
    decreases k.len() - i, 34nat,
{
    if next_is(k, i, |x: Kind| x == Kind::LeftBracket) {
        match expression_rule(k, i + 1) {
            Ok(p) => if !advanced(k, i + 1, p) {
                Err(None)
            } else {
                match expression_rule(k, p) {
                    Ok(q) => if !advanced(k, p, q) {
                        Err(None)
                    } else {
                        block_tail_rule(k, q)
                    },
                    Err(e) => Err(e),
                }
            },
            Err(e) => Err(e),
        }
    } else {
        expression_rule(k, i)
    }
}

/// The rest of a block in brackets: expression* `]`.
pub open spec fn block_tail_rule(k: Seq<Kind>, i: int) -> Outcome
    decreases k.len() - i, 34nat,
{
    if 0 <= i < k.len() && k[i] != Kind::RightBracket {
        match expression_rule(k, i) {
            Ok(j) => if !advanced(k, i, j) {
                Err(None)
            } else {
                block_tail_rule(k, j)
            },
            Err(e) => Err(e),
        }
    } else {
        expect_kind(k, i, Kind::RightBracket)
    }
}

/// arithmetic: epsilon.
pub open spec fn arithmetic_rule(k: Seq<Kind>, i: int) -> Outcome
    decreases k.len() - i, 20nat,
{
    epsilon_rule(k, i)
}

/// epsilon: modulo (`~` modulo)?.
pub open spec fn epsilon_rule(k: Seq<Kind>, i: int) -> Outcome
    decreases k.len() - i, 19nat,
{
    match modulo_rule(k, i) {
        Ok(j) => if !advanced(k, i, j) {
            Err(None)
        } else if next_is(k, j, |x: Kind| x == Kind::Tilde) {
            modulo_rule(k, j + 1)
        } else {
            Ok(j)
        },
        Err(e) => Err(e),
    }
}

/// modulo: sum (`%` sum)*.
pub open spec fn modulo_rule(k: Seq<Kind>, i: int) -> Outcome
    decreases k.len() - i, 18nat,
{
    match sum_rule(k, i) {
        Ok(j) => if !advanced(k, i, j) {
            Err(None)
        } else {
            modulo_tail_rule(k, j)
        },
        Err(e) => Err(e),
    }
}

/// The rest of a modulo: (`%` sum)*.
pub open spec fn modulo_tail_rule(k: Seq<Kind>, i: int) -> Outcome
    decreases k.len() - i, 18nat,
{
    if next_is(k, i, |x: Kind| x == Kind::Percent) {
        match sum_rule(k, i + 1) {
            Ok(j) => if !advanced(k, i, j) {
                Err(None)
            } else {
                modulo_tail_rule(k, j)
            },
            Err(e) => Err(e),
        }
    } else {
        Ok(i)
    }
}

/// sum: product ((`+` | `-`) product)*.
pub open spec fn sum_rule(k: Seq<Kind>, i: int) -> Outcome
    decreases k.len() - i, 17nat,
{
    match product_rule(k, i) {
        Ok(j) => if !advanced(k, i, j) {
            Err(None)
        } else {
            sum_tail_rule(k, j)
        },
        Err(e) => Err(e),
    }
}

/// The rest of a sum: ((`+` | `-`) product)*.
pub open spec fn sum_tail_rule(k: Seq<Kind>, i: int) -> Outcome
    decreases k.len() - i, 17nat,
{
    if next_is(k, i, |x: Kind| x == Kind::Plus || x == Kind::Minus) {
        match product_rule(k, i + 1) {
            Ok(j) => if !advanced(k, i, j) {
                Err(None)
            } else {
                sum_tail_rule(k, j)
            },
            Err(e) => Err(e),
        }
    } else {
        Ok(i)
    }
}

/// product: power ((`*` | `/`) power)*.
pub open spec fn product_rule(k: Seq<Kind>, i: int) -> Outcome
    decreases k.len() - i, 16nat,
{
    match power_rule(k, i) {
        Ok(j) => if !advanced(k, i, j) {
            Err(None)
        } else {
            product_tail_rule(k, j)
        },
        Err(e) => Err(e),
    }
}

/// The rest of a product: ((`*` | `/`) power)*.
pub open spec fn product_tail_rule(k: Seq<Kind>, i: int) -> Outcome
    decreases k.len() - i, 16nat,
{
    if next_is(k, i, |x: Kind| x == Kind::Star || x == Kind::Slash) {
        match power_rule(k, i + 1) {
            Ok(j) => if !advanced(k, i, j) {
                Err(None)
            } else {
                product_tail_rule(k, j)
            },
            Err(e) => Err(e),
        }
    } else {
        Ok(i)
    }
}

/// power: primary (`^` primary)*.
pub open spec fn power_rule(k: Seq<Kind>, i: int) -> Outcome
    decreases k.len() - i, 15nat,
{
    match primary_rule(k, i) {
        Ok(j) => if !advanced(k, i, j) {
            Err(None)
        } else {
            power_tail_rule(k, j)
        },
        Err(e) => Err(e),
    }
}

/// The rest of a power: (`^` primary)*.
pub open spec fn power_tail_rule(k: Seq<Kind>, i: int) -> Outcome
    decreases k.len() - i, 15nat,
{
    if next_is(k, i, |x: Kind| x == Kind::Caret) {
        match primary_rule(k, i + 1) {
            Ok(j) => if !advanced(k, i, j) {
                Err(None)
            } else {
                power_tail_rule(k, j)
            },
            Err(e) => Err(e),
        }
    } else {
        Ok(i)
    }
}

/// The kinds that start a primary.
pub open spec fn is_primary_start(x: Kind) -> bool {
    x == Kind::Minus || x == Kind::Number || x == Kind::Identifier || x == Kind::LeftParenthesis
}

/// primary: a number (`-`? number), a call (identifier arguments*) or a grouping
/// (`(` expression `)`).
pub open spec fn primary_rule(k: Seq<Kind>, i: int) -> Outcome
    decreases k.len() - i, 14nat,
{
    match expect(k, i, |x: Kind| is_primary_start(x)) {
        Ok(j) => if k[i] == Kind::Minus || k[i] == Kind::Number {
            number_rest(k, j)
        } else if k[i] == Kind::Identifier {
            call_tail_rule(k, j)
        } else {
            grouping_rest_rule(k, j)
        },
        Err(e) => Err(e),
    }
}

/// The arguments of a call, after its identifier: arguments*.
pub open spec fn call_tail_rule(k: Seq<Kind>, i: int) -> Outcome
    decreases k.len() - i, 13nat,
{
    if next_is(k, i, |x: Kind| x == Kind::LeftParenthesis) {
        match arguments_rule(k, i) {
            Ok(j) => if !advanced(k, i, j) {
                Err(None)
            } else {
                call_tail_rule(k, j)
            },
            Err(e) => Err(e),
        }
    } else {
        Ok(i)
    }
}

/// arguments: `(` expression (`,` expression)* `)`.
pub open spec fn arguments_rule(k: Seq<Kind>, i: int) -> Outcome
    decreases k.len() - i, 12nat,
{
    match expect_kind(k, i, Kind::LeftParenthesis) {
        Ok(j) => match expression_rule(k, j) {
            Ok(p) => if !advanced(k, j, p) {
                Err(None)
            } else {
                arguments_tail_rule(k, p)
            },
            Err(e) => Err(e),
        },
        Err(e) => Err(e),
    }
}

/// The rest of the arguments after an expression: (`,` expression)* `)`.
pub open spec fn arguments_tail_rule(k: Seq<Kind>, i: int) -> Outcome
    decreases k.len() - i, 12nat,
{
    if next_is(k, i, |x: Kind| x == Kind::Comma) {
        match expression_rule(k, i + 1) {
            Ok(j) => if !advanced(k, i + 1, j) {
                Err(None)
            } else {
                arguments_tail_rule(k, j)
            },
            Err(e) => Err(e),
        }
    } else {
        expect_kind(k, i, Kind::RightParenthesis)
    }
}

/// A grouping, after its `(`: expression `)`.
pub open spec fn grouping_rest_rule(k: Seq<Kind>, i: int) -> Outcome
    decreases k.len() - i, 35nat,
{
    match expression_rule(k, i) {
        Ok(j) => if !advanced(k, i, j) {
            Err(None)
        } else {
            expect_kind(k, j, Kind::RightParenthesis)
        },
        Err(e) => Err(e),
    }
}

/// comparison: comparator expression.
pub open spec fn comparison_rule(k: Seq<Kind>, i: int) -> Outcome {
    match comparator_rule(k, i) {
        Ok(j) => expression_rule(k, j),
        Err(e) => Err(e),
    }
}

/// The expressions of a program after its first one, up to the end of the tokens.
pub open spec fn expressions_tail_rule(k: Seq<Kind>, i: int) -> Outcome
    decreases k.len() - i,
{
    if 0 <= i < k.len() {
        match expression_rule(k, i) {
            Ok(j) => if !advanced(k, i, j) {
                Err(None)
            } else {
                expressions_tail_rule(k, j)
            },
            Err(e) => Err(e),
        }
    } else {
        Ok(i)
    }
}

/// The comparisons of a program after its first one, up to the end of the tokens.
pub open spec fn comparisons_tail_rule(k: Seq<Kind>, i: int) -> Outcome
    decreases k.len() - i,
{
    if 0 <= i < k.len() {
        match comparison_rule(k, i) {
            Ok(j) => if !advanced(k, i, j) {
                Err(None)
            } else {
                comparisons_tail_rule(k, j)
            },
            Err(e) => Err(e),
        }
    } else {
        Ok(i)
    }
}

/// One comparison or more, up to the end of the tokens.
pub open spec fn comparisons_rule(k: Seq<Kind>, i: int) -> Outcome {
    match comparison_rule(k, i) {
        Ok(j) => if !advanced(k, i, j) {
            Err(None)
        } else {
            comparisons_tail_rule(k, j)
        },
        Err(e) => Err(e),
    }
}

/// program: an expression followed by more expressions to the end, or, where a comparator
/// follows the first expression, by comparisons to the end.
pub open spec fn program_rule(k: Seq<Kind>, i: int) -> Outcome {
    match expression_rule(k, i) {
        Ok(j) => if !advanced(k, i, j) {
            Err(None)
        } else if next_is(k, j, |x: Kind| is_comparison_kind(x)) {
            comparisons_rule(k, j)
        } else {
            expressions_tail_rule(k, j)
        },
        Err(e) => Err(e),
    }
}

/// Whether a sequence of token kinds is a program.
pub open spec fn derives(k: Seq<Kind>) -> bool {
    program_rule(k, 0) is Ok
}

} // verus!
