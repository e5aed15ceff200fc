//! The closed set of builtin functions, the evaluation environment,
//! and the evaluation of expressions against it.
//!
//! Evaluation works on a snapshot of the device: the caller reads the
//! current and maximum brightness once, resolves every percent literal
//! through the easing curve, and reads the persisted value if the
//! expression asks to restore it. The walk over the tree, the argument
//! arity rules and the builtin arithmetic all live here and are
//! verified; the snapshot's ingredients come from outside.

use vstd::prelude::*;

use super::{ast_size, ast_size_list, ast_size_list_bound, ast_view_list, ast_view_list_props, Ast,
    AstView, ChangeDirection};
use crate::device::errors::{DeviceReadError, DeviceReadErrorView};
use crate::text::{parse_u16, parse_u16_error_message, spec_parse_u16, str_eq, ParseU16Error};

verus! {

broadcast use vstd::seq::group_seq_axioms;

/// How many arguments a builtin function accepts: at least `min`,
/// and at most `max` when `max` is set.
#[derive(Debug, Clone, Copy, PartialEq, Eq, Structural)]
pub struct ArgumentCount {
    pub min: usize,
    pub max: Option<usize>,
}

/// `count` satisfies an [`ArgumentCount`] when it reaches `min` and
/// does not exceed `max` (if any).
pub open spec fn spec_valid_count(ac: ArgumentCount, count: usize) -> bool {
    count >= ac.min && match ac.max {
        Some(m) => count <= m,
        None => true,
    }
}

impl ArgumentCount {
    pub fn valid(&self, count: usize) -> (r: bool)
        ensures
            r == spec_valid_count(*self, count),
    {
        count >= self.min && match self.max {
            Some(m) => count <= m,
            None => true,
        }
    }

    pub fn new(min: usize, max: Option<usize>) -> (r: Self)
        ensures
            r.min == min,
            r.max == max,
    {
        Self { min, max }
    }

    fn exactly(count: usize) -> (r: Self)
        ensures
            r.min == count,
            r.max == Some(count),
    {
        Self { min: count, max: Some(count) }
    }

    fn empty() -> (r: Self)
        ensures
            r.min == 0,
            r.max == Some(0usize),
    {
        Self { min: 0, max: Some(0) }
    }
}

/// `clamp(min, optimal, max)`: the middle argument bounded by the
/// other two.
pub struct Clamp;

/// `current()`: the device's brightness right now.
pub struct Current;

/// `max(v1..vn)`: the largest argument.
pub struct Max;

/// `min(v1..vn)`: the smallest argument.
pub struct Min;

/// `restore()`: the brightness persisted for this device earlier.
pub struct Restore;

impl Clamp {
    pub fn name(&self) -> (r: &'static str)
        ensures
            r@ == "clamp"@,
    {
        "clamp"
    }

    pub fn argument_count(&self) -> (r: ArgumentCount)
        ensures
            r == spec_arity(Builtin::Clamp),
    {
        ArgumentCount::exactly(3)
    }
}

impl Current {
    pub fn name(&self) -> (r: &'static str)
        ensures
            r@ == "current"@,
    {
        "current"
    }

    pub fn argument_count(&self) -> (r: ArgumentCount)
        ensures
            r == spec_arity(Builtin::Current),
    {
        ArgumentCount::empty()
    }
}

impl Max {
    pub fn name(&self) -> (r: &'static str)
        ensures
            r@ == "max"@,
    {
        "max"
    }

    pub fn argument_count(&self) -> (r: ArgumentCount)
        ensures
            r == spec_arity(Builtin::Max),
    {
        ArgumentCount::new(1, None)
    }
}

impl Min {
    pub fn name(&self) -> (r: &'static str)
        ensures
            r@ == "min"@,
    {
        "min"
    }

    pub fn argument_count(&self) -> (r: ArgumentCount)
        ensures
            r == spec_arity(Builtin::Min),
    {
        ArgumentCount::new(1, None)
    }
}

impl Restore {
    pub fn name(&self) -> (r: &'static str)
        ensures
            r@ == "restore"@,
    {
        "restore"
    }

    pub fn argument_count(&self) -> (r: ArgumentCount)
        ensures
            r == spec_arity(Builtin::Restore),
    {
        ArgumentCount::empty()
    }
}

/// The tag of a builtin function.
#[derive(Debug, Clone, Copy, PartialEq, Eq, Structural)]
pub enum Builtin {
    Current,
    Clamp,
    Max,
    Min,
    Restore,
}

/// The builtin a name resolves to, if any.
pub open spec fn spec_builtin(name: Seq<char>) -> Option<Builtin> {
    if name == "current"@ {
        Some(Builtin::Current)
    } else if name == "clamp"@ {
        Some(Builtin::Clamp)
    } else if name == "max"@ {
        Some(Builtin::Max)
    } else if name == "min"@ {
        Some(Builtin::Min)
    } else if name == "restore"@ {
        Some(Builtin::Restore)
    } else {
        None
    }
}

/// The registry lookup: which builtin a name denotes.
pub fn get_function(name: &str) -> (r: Option<Builtin>)
    ensures
        r == spec_builtin(name@),
{
    if str_eq(name, "current") {
        Some(Builtin::Current)
    } else if str_eq(name, "clamp") {
        Some(Builtin::Clamp)
    } else if str_eq(name, "max") {
        Some(Builtin::Max)
    } else if str_eq(name, "min") {
        Some(Builtin::Min)
    } else if str_eq(name, "restore") {
        Some(Builtin::Restore)
    } else {
        None
    }
}

/// The declared argument count of each builtin.
pub open spec fn spec_arity(b: Builtin) -> ArgumentCount {
    match b {
        Builtin::Current => ArgumentCount { min: 0, max: Some(0) },
        Builtin::Clamp => ArgumentCount { min: 3, max: Some(3) },
        Builtin::Max => ArgumentCount { min: 1, max: None },
        Builtin::Min => ArgumentCount { min: 1, max: None },
        Builtin::Restore => ArgumentCount { min: 0, max: Some(0) },
    }
}

impl Builtin {
    pub fn argument_count(&self) -> (r: ArgumentCount)
        ensures
            r == spec_arity(*self),
    {
        match self {
            Builtin::Current => Current.argument_count(),
            Builtin::Clamp => Clamp.argument_count(),
            Builtin::Max => Max.argument_count(),
            Builtin::Min => Min.argument_count(),
            Builtin::Restore => Restore.argument_count(),
        }
    }
}

/// What reading the persisted brightness file gave, before its content
/// is interpreted.
#[derive(Debug)]
pub enum RestoreRead {
    /// The file was read; its raw content.
    Content(String),
    /// The file does not exist.
    Missing,
    /// Reading failed for another reason; the I/O error's message.
    Unreadable(String),
}

/// The mathematical shape of a [`RestoreRead`].
pub enum RestoreReadView {
    Content(Seq<char>),
    Missing,
    Unreadable(Seq<char>),
}

impl View for RestoreRead {
    type V = RestoreReadView;

    open spec fn view(&self) -> RestoreReadView {
        match self {
            RestoreRead::Content(s) => RestoreReadView::Content(s@),
            RestoreRead::Missing => RestoreReadView::Missing,
            RestoreRead::Unreadable(m) => RestoreReadView::Unreadable(m@),
        }
    }
}

/// The answer the easing curve gives for one percent literal: a
/// literal `value` applied in `direction` against the snapshot maps
/// the device to `result`.
#[derive(Debug, Clone, Copy, PartialEq, Eq, Structural)]
pub struct PercentAnswer {
    pub direction: ChangeDirection,
    pub value: u16,
    pub result: u16,
}

/// The snapshot an expression is evaluated against. The caller reads
/// the device once, answers the percent queries through its easing
/// curve, and reads the restore file if the expression needs it.
#[derive(Debug)]
pub struct EvalEnv {
    /// The device's brightness at the snapshot.
    pub current: u16,
    /// The device's maximum brightness.
    pub max: u16,
    /// The resolved percent literals, consulted first match wins.
    pub percent: Vec<PercentAnswer>,
    /// What reading the persisted brightness gave.
    pub restore: RestoreRead,
    /// The path of the persisted brightness file, for diagnostics.
    pub restore_path: String,
}

/// The mathematical shape of an [`EvalEnv`].
pub struct EvalEnvView {
    pub current: u16,
    pub max: u16,
    pub percent: Seq<PercentAnswer>,
    pub restore: RestoreReadView,
    pub restore_path: Seq<char>,
}

impl View for EvalEnv {
    type V = EvalEnvView;

    open spec fn view(&self) -> EvalEnvView {
        EvalEnvView {
            current: self.current,
            max: self.max,
            percent: self.percent@,
            restore: self.restore@,
            restore_path: self.restore_path@,
        }
    }
}

/// The first answer recorded for a percent literal, if any.
pub open spec fn lookup_percent(
    answers: Seq<PercentAnswer>,
    direction: ChangeDirection,
    value: u16,
) -> Option<u16>
    decreases answers.len(),
{
    if answers.len() == 0 {
        None
    } else if answers[0].direction == direction && answers[0].value == value {
        Some(answers[0].result)
    } else {
        lookup_percent(answers.subrange(1, answers.len() as int), direction, value)
    }
}

/// Why evaluating an expression failed.
#[derive(Debug)]
pub enum BrightnessEvaluationError {
    /// The current brightness could not be read from the device.
    DeviceReadError(DeviceReadError),
    /// The expression calls a function the registry does not know.
    UnsupportedFunction(String),
    /// A known function got the wrong number of arguments.
    WrongArgumentCount { function: String, provided: usize, min: usize, max: Option<usize> },
    /// `restore()` found no persisted value; carries the path looked at.
    MissingFile(String),
    /// Another failure, wrapped as its message.
    Other(String),
}

/// The mathematical shape of a [`BrightnessEvaluationError`].
pub enum BrightnessEvaluationErrorView {
    DeviceReadError(DeviceReadErrorView),
    UnsupportedFunction(Seq<char>),
    WrongArgumentCount { function: Seq<char>, provided: usize, min: usize, max: Option<usize> },
    MissingFile(Seq<char>),
    Other(Seq<char>),
}

impl View for BrightnessEvaluationError {
    type V = BrightnessEvaluationErrorView;

    open spec fn view(&self) -> BrightnessEvaluationErrorView {
        match self {
            BrightnessEvaluationError::DeviceReadError(e) => {
                BrightnessEvaluationErrorView::DeviceReadError(e@)
            },
            BrightnessEvaluationError::UnsupportedFunction(n) => {
                BrightnessEvaluationErrorView::UnsupportedFunction(n@)
            },
            BrightnessEvaluationError::WrongArgumentCount { function, provided, min, max } => {
                BrightnessEvaluationErrorView::WrongArgumentCount {
                    function: function@,
                    provided: *provided,
                    min: *min,
                    max: *max,
                }
            },
            BrightnessEvaluationError::MissingFile(p) => {
                BrightnessEvaluationErrorView::MissingFile(p@)
            },
            BrightnessEvaluationError::Other(m) => BrightnessEvaluationErrorView::Other(m@),
        }
    }
}

/// Everything evaluation can come to, including the two outcomes a
/// caller must rule out or handle itself: an inverted `clamp`, on
/// which the builtin is specified to have no result, and a percent
/// literal the snapshot left unanswered.
#[derive(Debug)]
pub enum EvalOutcome {
    /// The evaluated brightness.
    Value(u16),
    /// A typed evaluation error.
    Failed(BrightnessEvaluationError),
    /// `clamp` was reached with its evaluated bounds inverted.
    InvalidClamp { lower: u16, upper: u16 },
    /// A percent literal had no answer in the snapshot.
    MissingPercent { direction: ChangeDirection, value: u16 },
}

/// The mathematical shape of an [`EvalOutcome`].
pub enum EvalOutcomeView {
    Value(u16),
    Failed(BrightnessEvaluationErrorView),
    InvalidClamp { lower: u16, upper: u16 },
    MissingPercent { direction: ChangeDirection, value: u16 },
}

impl View for EvalOutcome {
    type V = EvalOutcomeView;

    open spec fn view(&self) -> EvalOutcomeView {
        match self {
            EvalOutcome::Value(v) => EvalOutcomeView::Value(*v),
            EvalOutcome::Failed(e) => EvalOutcomeView::Failed(e@),
            EvalOutcome::InvalidClamp { lower, upper } => {
                EvalOutcomeView::InvalidClamp { lower: *lower, upper: *upper }
            },
            EvalOutcome::MissingPercent { direction, value } => {
                EvalOutcomeView::MissingPercent { direction: *direction, value: *value }
            },
        }
    }
}

/// A left fold of maximum, as the builtin computes it.
pub open spec fn fold_max(vals: Seq<u16>, acc: u16) -> u16
    decreases vals.len(),
{
    if vals.len() == 0 {
        acc
    } else {
        fold_max(
            vals.subrange(1, vals.len() as int),
            if vals[0] > acc {
                vals[0]
            } else {
                acc
            },
        )
    }
}

/// A left fold of minimum, as the builtin computes it.
pub open spec fn fold_min(vals: Seq<u16>, acc: u16) -> u16
    decreases vals.len(),
{
    if vals.len() == 0 {
        acc
    } else {
        fold_min(
            vals.subrange(1, vals.len() as int),
            if vals[0] < acc {
                vals[0]
            } else {
                acc
            },
        )
    }
}

/// What `restore()` yields from what the file read gave.
pub open spec fn spec_restore_outcome(env: EvalEnvView) -> EvalOutcomeView {
    match env.restore {
        RestoreReadView::Content(s) => match spec_parse_u16(s) {
            Ok(v) => EvalOutcomeView::Value(v),
            Err(ParseU16Error::Empty) => EvalOutcomeView::Failed(
                BrightnessEvaluationErrorView::Other("cannot parse integer from empty string"@),
            ),
            Err(ParseU16Error::InvalidDigit) => EvalOutcomeView::Failed(
                BrightnessEvaluationErrorView::Other("invalid digit found in string"@),
            ),
            Err(ParseU16Error::PosOverflow) => EvalOutcomeView::Failed(
                BrightnessEvaluationErrorView::Other("number too large to fit in target type"@),
            ),
        },
        RestoreReadView::Missing => EvalOutcomeView::Failed(
            BrightnessEvaluationErrorView::MissingFile(env.restore_path),
        ),
        RestoreReadView::Unreadable(m) => EvalOutcomeView::Failed(
            BrightnessEvaluationErrorView::Other(m),
        ),
    }
}

/// What evaluating `a` against the snapshot `env` comes to.
///
/// A plain literal works on the current value: absolute is taken
/// verbatim, increase saturates and is capped at the maximum, decrease
/// floors at zero. A percent literal takes its answer from the
/// snapshot. A call resolves its name, checks its arity, evaluates its
/// arguments left to right (the first non-value outcome wins), and
/// applies the builtin.
pub open spec fn spec_eval(a: AstView, env: EvalEnvView) -> EvalOutcomeView
    decreases ast_size(a), 0int,
{
    match a {
        AstView::Literal { direction, value, percent: false } => match direction {
            ChangeDirection::Abs => EvalOutcomeView::Value(value),
            ChangeDirection::Inc => EvalOutcomeView::Value(
                if env.current + value < env.max {
                    (env.current + value) as u16
                } else {
                    env.max
                },
            ),
            ChangeDirection::Dec => EvalOutcomeView::Value(
                if env.current >= value {
                    (env.current - value) as u16
                } else {
                    0
                },
            ),
        },
        AstView::Literal { direction, value, percent: true } => match lookup_percent(
            env.percent,
            direction,
            value,
        ) {
            Some(r) => EvalOutcomeView::Value(r),
            None => EvalOutcomeView::MissingPercent { direction, value },
        },
        AstView::Function { name, arguments } => match spec_builtin(name) {
            None => EvalOutcomeView::Failed(
                BrightnessEvaluationErrorView::UnsupportedFunction(name),
            ),
            Some(b) => {
                let ac = spec_arity(b);
                if !spec_valid_count(ac, arguments.len() as usize) {
                    EvalOutcomeView::Failed(
                        BrightnessEvaluationErrorView::WrongArgumentCount {
                            function: name,
                            provided: arguments.len() as usize,
                            min: ac.min,
                            max: ac.max,
                        },
                    )
                } else {
                    match b {
                        Builtin::Current => EvalOutcomeView::Value(env.current),
                        Builtin::Restore => spec_restore_outcome(env),
                        Builtin::Clamp => match spec_eval_list(arguments, env) {
                            Err(out) => out,
                            Ok(vals) => {
                                let lo = vals[0];
                                let mid = vals[1];
                                let hi = vals[2];
                                if lo > hi {
                                    EvalOutcomeView::InvalidClamp { lower: lo, upper: hi }
                                } else {
                                    EvalOutcomeView::Value(
                                        if mid < lo {
                                            lo
                                        } else if mid > hi {
                                            hi
                                        } else {
                                            mid
                                        },
                                    )
                                }
                            },
                        },
                        Builtin::Max => match spec_eval_list(arguments, env) {
                            Err(out) => out,
                            Ok(vals) => EvalOutcomeView::Value(
                                fold_max(vals.subrange(1, vals.len() as int), vals[0]),
                            ),
                        },
                        Builtin::Min => match spec_eval_list(arguments, env) {
                            Err(out) => out,
                            Ok(vals) => EvalOutcomeView::Value(
                                fold_min(vals.subrange(1, vals.len() as int), vals[0]),
                            ),
                        },
                    }
                }
            },
        },
    }
}

/// Evaluates the arguments left to right: all their values, or the
/// first outcome that is not a value.
pub open spec fn spec_eval_list(args: Seq<AstView>, env: EvalEnvView) -> Result<
    Seq<u16>,
    EvalOutcomeView,
>
    decreases ast_size_list(args), 1int,
    via spec_eval_list_decreases
{
    if args.len() == 0 {
        Ok(Seq::empty())
    } else {
        match spec_eval(args[0], env) {
            EvalOutcomeView::Value(v) => match spec_eval_list(
                args.subrange(1, args.len() as int),
                env,
            ) {
                Ok(rest) => Ok(seq![v] + rest),
                Err(out) => Err(out),
            },
            out => Err(out),
        }
    }
}

#[via_fn]
proof fn spec_eval_list_decreases(args: Seq<AstView>, env: EvalEnvView) {
    if args.len() > 0 {
        ast_size_positive(args[0]);
    }
}

/// Every expression has at least one node.
pub proof fn ast_size_positive(a: AstView)
    ensures
        ast_size(a) >= 1,
{
}

/// The evaluation of the argument suffix from `i`, prefixed by the
/// values already computed.
pub open spec fn eval_list_with_prefix(
    args: Seq<AstView>,
    env: EvalEnvView,
    i: int,
    prefix: Seq<u16>,
) -> Result<Seq<u16>, EvalOutcomeView> {
    match spec_eval_list(args.subrange(i, args.len() as int), env) {
        Ok(rest) => Ok(prefix + rest),
        Err(out) => Err(out),
    }
}

impl Ast {
    /// Evaluates the expression against a snapshot, covering every
    /// outcome; see [`spec_eval`] for what each case yields.
    #[verifier::loop_isolation(false)]
    pub fn evaluate_checked(&self, env: &EvalEnv) -> (r: EvalOutcome)
        ensures
            r@ == spec_eval(self@, env@),
        decreases ast_size(self@), 0int,
    {
        match self {
            Ast::Literal { direction, value, percent } => {
                if !*percent {
                    match direction {
                        ChangeDirection::Abs => EvalOutcome::Value(*value),
                        ChangeDirection::Inc => {
                            let sum: u32 = (env.current as u32) + (*value as u32);
                            EvalOutcome::Value(
                                if sum < env.max as u32 {
                                    sum as u16
                                } else {
                                    env.max
                                },
                            )
                        },
                        ChangeDirection::Dec => EvalOutcome::Value(
                            if env.current >= *value {
                                env.current - *value
                            } else {
                                0
                            },
                        ),
                    }
                } else {
                    let mut j: usize = 0;
                    let total = env.percent.len();
                    proof {
                        assert(env.percent@.subrange(0, total as int) =~= env.percent@);
                    }
                    while j < total
                        invariant
                            j <= total,
                            lookup_percent(env.percent@, *direction, *value) == lookup_percent(
                                env.percent@.subrange(j as int, total as int),
                                *direction,
                                *value,
                            ),
                        decreases total - j,
                    {
                        proof {
                            let ghost tail = env.percent@.subrange(j as int, total as int);
                            assert(tail[0] == env.percent@[j as int]);
                            assert(tail.subrange(1, tail.len() as int) =~= env.percent@.subrange(
                                j + 1,
                                total as int,
                            ));
                        }
                        let a = &env.percent[j];
                        if a.direction == *direction && a.value == *value {
                            return EvalOutcome::Value(a.result);
                        }
                        j = j + 1;
                    }
                    proof {
                        assert(env.percent@.subrange(total as int, total as int).len() == 0);
                    }
                    EvalOutcome::MissingPercent { direction: *direction, value: *value }
                }
            },
            Ast::Function { name, arguments } => {
                let ghost argvs = ast_view_list(arguments@);
                proof {
                    ast_view_list_props(arguments@);
                }
                let builtin = match get_function(name.as_str()) {
                    None => {
                        return EvalOutcome::Failed(
                            BrightnessEvaluationError::UnsupportedFunction(name.clone()),
                        );
                    },
                    Some(b) => b,
                };
                let ac = builtin.argument_count();
                if !ac.valid(arguments.len()) {
                    return EvalOutcome::Failed(
                        BrightnessEvaluationError::WrongArgumentCount {
                            function: name.clone(),
                            provided: arguments.len(),
                            min: ac.min,
                            max: ac.max,
                        },
                    );
                }
                match builtin {
                    Builtin::Current => EvalOutcome::Value(env.current),
                    Builtin::Restore => match &env.restore {
                        RestoreRead::Content(s) => match parse_u16(s.as_str()) {
                            Ok(v) => EvalOutcome::Value(v),
                            Err(e) => EvalOutcome::Failed(
                                BrightnessEvaluationError::Other(
                                    String::from_str(parse_u16_error_message(e)),
                                ),
                            ),
                        },
                        RestoreRead::Missing => EvalOutcome::Failed(
                            BrightnessEvaluationError::MissingFile(env.restore_path.clone()),
                        ),
                        RestoreRead::Unreadable(m) => EvalOutcome::Failed(
                            BrightnessEvaluationError::Other(m.clone()),
                        ),
                    },
                    _ => {
                        // clamp, max and min evaluate every argument first.
                        let vals = match Self::evaluate_arguments(arguments, env) {
                            Err(out) => {
                                return out;
                            },
                            Ok(v) => v,
                        };
                        match builtin {
                            Builtin::Clamp => {
                                let lo = vals[0];
                                let mid = vals[1];
                                let hi = vals[2];
                                if lo > hi {
                                    EvalOutcome::InvalidClamp { lower: lo, upper: hi }
                                } else {
                                    EvalOutcome::Value(
                                        if mid < lo {
                                            lo
                                        } else if mid > hi {
                                            hi
                                        } else {
                                            mid
                                        },
                                    )
                                }
                            },
                            Builtin::Max => {
                                let mut best = vals[0];
                                let mut k: usize = 1;
                                let total = vals.len();
                                while k < total
                                    invariant
                                        1 <= k <= total,
                                        fold_max(
                                            vals@.subrange(1, total as int),
                                            vals@[0],
                                        ) == fold_max(
                                            vals@.subrange(k as int, total as int),
                                            best,
                                        ),
                                    decreases total - k,
                                {
                                    proof {
                                        let ghost tail = vals@.subrange(k as int, total as int);
                                        assert(tail[0] == vals@[k as int]);
                                        assert(tail.subrange(1, tail.len() as int)
                                            =~= vals@.subrange(k + 1, total as int));
                                    }
                                    if vals[k] > best {
                                        best = vals[k];
                                    }
                                    k = k + 1;
                                }
                                proof {
                                    assert(vals@.subrange(total as int, total as int).len() == 0);
                                }
                                EvalOutcome::Value(best)
                            },
                            Builtin::Min => {
                                let mut best = vals[0];
                                let mut k: usize = 1;
                                let total = vals.len();
                                while k < total
                                    invariant
                                        1 <= k <= total,
                                        fold_min(
                                            vals@.subrange(1, total as int),
                                            vals@[0],
                                        ) == fold_min(
                                            vals@.subrange(k as int, total as int),
                                            best,
                                        ),
                                    decreases total - k,
                                {
                                    proof {
                                        let ghost tail = vals@.subrange(k as int, total as int);
                                        assert(tail[0] == vals@[k as int]);
                                        assert(tail.subrange(1, tail.len() as int)
                                            =~= vals@.subrange(k + 1, total as int));
                                    }
                                    if vals[k] < best {
                                        best = vals[k];
                                    }
                                    k = k + 1;
                                }
                                proof {
                                    assert(vals@.subrange(total as int, total as int).len() == 0);
                                }
                                EvalOutcome::Value(best)
                            },
                            _ => vstd::pervasive::unreached(),
                        }
                    },
                }
            },
        }
    }

    /// Evaluates every argument, or stops at the first outcome that is
    /// not a value.
    #[verifier::loop_isolation(false)]
    fn evaluate_arguments(arguments: &Vec<Ast>, env: &EvalEnv) -> (r: Result<Vec<u16>, EvalOutcome>)
        ensures
            (match r {
                Ok(v) => spec_eval_list(ast_view_list(arguments@), env@) == Ok::<
                    Seq<u16>,
                    EvalOutcomeView,
                >(v@),
                Err(out) => spec_eval_list(ast_view_list(arguments@), env@) == Err::<
                    Seq<u16>,
                    EvalOutcomeView,
                >(out@),
            }),
            r matches Ok(v) ==> v@.len() == arguments@.len(),
        decreases ast_size_list(ast_view_list(arguments@)), 1int,
    {
        let ghost argvs = ast_view_list(arguments@);
        let n = arguments.len();
        proof {
            ast_view_list_props(arguments@);
            assert(argvs.subrange(0, argvs.len() as int) =~= argvs);
        }
        let mut vals: Vec<u16> = Vec::new();
        let mut i: usize = 0;
        proof {
            assert(vals@ =~= Seq::<u16>::empty());
            if spec_eval_list(argvs, env@) is Ok {
                assert(Seq::<u16>::empty() + spec_eval_list(argvs, env@)->Ok_0 =~= spec_eval_list(
                    argvs,
                    env@,
                )->Ok_0);
            }
        }
        while i < n
            invariant
                i <= n,
                vals@.len() == i,
                spec_eval_list(argvs, env@) == eval_list_with_prefix(argvs, env@, i as int, vals@),
            decreases n - i,
        {
            let ghost tail = argvs.subrange(i as int, argvs.len() as int);
            proof {
                assert(tail[0] == argvs[i as int]);
                assert(tail.subrange(1, tail.len() as int) =~= argvs.subrange(
                    i + 1,
                    argvs.len() as int,
                ));
                ast_size_list_bound(argvs, i as int);
            }
            let outcome = (&arguments[i]).evaluate_checked(env);
            match outcome {
                EvalOutcome::Value(v) => {
                    let ghost old_vals = vals@;
                    vals.push(v);
                    proof {
                        if spec_eval_list(tail.subrange(1, tail.len() as int), env@) is Ok {
                            let rest = spec_eval_list(
                                tail.subrange(1, tail.len() as int),
                                env@,
                            )->Ok_0;
                            assert(old_vals + (seq![v] + rest) =~= vals@ + rest);
                        }
                    }
                },
                out => {
                    return Err(out);
                },
            }
            i = i + 1;
        }
        proof {
            assert(argvs.subrange(n as int, argvs.len() as int).len() == 0);
            assert(vals@ + Seq::<u16>::empty() =~= vals@);
        }
        Ok(vals)
    }
}

/// Whether evaluation reaches neither an inverted `clamp` nor an
/// unanswered percent literal.
pub open spec fn eval_ok(a: AstView, env: EvalEnvView) -> bool {
    !(spec_eval(a, env) is InvalidClamp) && !(spec_eval(a, env) is MissingPercent)
}

impl Ast {
    /// Evaluates the expression against a snapshot.
    ///
    /// The snapshot fixes the device reading once for the whole walk;
    /// a failed reading is reported by the caller as
    /// [`BrightnessEvaluationError::DeviceReadError`] before any
    /// evaluation starts, so every node sees the same value.
    pub fn evaluate(&self, env: &EvalEnv) -> (r: Result<u16, BrightnessEvaluationError>)
        requires
            eval_ok(self@, env@),
        ensures
            (spec_eval(self@, env@) matches EvalOutcomeView::Value(v) ==> (r matches Ok(x) && x
                == v)),
            (spec_eval(self@, env@) matches EvalOutcomeView::Failed(e) ==> (r matches Err(x)
                && x@ == e)),
            (r is Ok) == (spec_eval(self@, env@) is Value),
    {
        match self.evaluate_checked(env) {
            EvalOutcome::Value(v) => Ok(v),
            EvalOutcome::Failed(e) => Err(e),
            _ => vstd::pervasive::unreached(),
        }
    }
}

/// Whether the expression holds the percent literal `(direction, value)`.
pub open spec fn spec_has_percent_literal(
    a: AstView,
    direction: ChangeDirection,
    value: u16,
) -> bool
    decreases ast_size(a), 0int,
{
    match a {
        AstView::Literal { direction: d, value: v, percent } => {
            percent && d == direction && v == value
        },
        AstView::Function { arguments, .. } => spec_list_has_percent(arguments, direction, value),
    }
}

/// Whether any expression of the list holds the percent literal.
pub open spec fn spec_list_has_percent(
    args: Seq<AstView>,
    direction: ChangeDirection,
    value: u16,
) -> bool
    decreases ast_size_list(args), 1int,
    via spec_list_has_percent_decreases
{
    if args.len() == 0 {
        false
    } else {
        spec_has_percent_literal(args[0], direction, value) || spec_list_has_percent(
            args.subrange(1, args.len() as int),
            direction,
            value,
        )
    }
}

#[via_fn]
proof fn spec_list_has_percent_decreases(args: Seq<AstView>, direction: ChangeDirection, value: u16) {
    if args.len() > 0 {
        ast_size_positive(args[0]);
    }
}

/// Whether the expression calls `restore` anywhere.
pub open spec fn spec_uses_restore(a: AstView) -> bool
    decreases ast_size(a), 0int,
{
    match a {
        AstView::Literal { .. } => false,
        AstView::Function { name, arguments } => name == "restore"@ || spec_list_uses_restore(
            arguments,
        ),
    }
}

pub open spec fn spec_list_uses_restore(args: Seq<AstView>) -> bool
    decreases ast_size_list(args), 1int,
    via spec_list_uses_restore_decreases
{
    if args.len() == 0 {
        false
    } else {
        spec_uses_restore(args[0]) || spec_list_uses_restore(
            args.subrange(1, args.len() as int),
        )
    }
}

#[via_fn]
proof fn spec_list_uses_restore_decreases(args: Seq<AstView>) {
    if args.len() > 0 {
        ast_size_positive(args[0]);
    }
}

impl Ast {
    /// The percent literals of the expression, in evaluation order:
    /// what the caller must answer through its easing curve before
    /// evaluating.
    pub fn percent_queries(&self) -> (r: Vec<(ChangeDirection, u16)>)
        ensures
            r@ == percent_seq(self@),
            forall|d: ChangeDirection, v: u16|
                r@.contains((d, v)) == spec_has_percent_literal(self@, d, v),
    {
        let mut out: Vec<(ChangeDirection, u16)> = Vec::new();
        self.collect_percent(&mut out);
        proof {
            assert(out@ =~= percent_seq(self@));
            percent_seq_characterizes(self@);
        }
        out
    }

    /// Pushes every percent literal of the expression onto `out`.
    #[verifier::loop_isolation(false)]
    fn collect_percent(&self, out: &mut Vec<(ChangeDirection, u16)>)
        ensures
            final(out)@ == old(out)@ + percent_seq(self@),
        decreases ast_size(self@), 0int,
    {
        match self {
            Ast::Literal { direction, value, percent } => {
                if *percent {
                    let ghost pre = out@;
                    out.push((*direction, *value));
                    proof {
                        assert(out@ =~= pre + percent_seq(self@));
                    }
                } else {
                    proof {
                        assert(out@ =~= out@ + percent_seq(self@));
                    }
                }
            },
            Ast::Function { arguments, .. } => {
                let ghost argvs = ast_view_list(arguments@);
                proof {
                    ast_view_list_props(arguments@);
                    assert(old(out)@ + percent_seq_list(argvs.subrange(0, 0)) =~= old(out)@);
                }
                let n = arguments.len();
                let mut i: usize = 0;
                while i < n
                    invariant
                        i <= n,
                        out@ == old(out)@ + percent_seq_list(argvs.subrange(0, i as int)),
                    decreases n - i,
                {
                    proof {
                        ast_size_list_bound(argvs, i as int);
                    }
                    (&arguments[i]).collect_percent(out);
                    proof {
                        percent_seq_list_snoc(argvs, i as int);
                        assert(out@ =~= old(out)@ + percent_seq_list(
                            argvs.subrange(0, i + 1),
                        ));
                    }
                    i = i + 1;
                }
                proof {
                    assert(argvs.subrange(0, n as int) =~= argvs);
                }
            },
        }
    }

    /// Whether the expression calls `restore` anywhere: whether the
    /// caller should read the persisted brightness before evaluating.
    #[verifier::loop_isolation(false)]
    pub fn uses_restore(&self) -> (r: bool)
        ensures
            r == spec_uses_restore(self@),
        decreases ast_size(self@), 0int,
    {
        match self {
            Ast::Literal { .. } => false,
            Ast::Function { name, arguments } => {
                if str_eq(name.as_str(), "restore") {
                    return true;
                }
                let ghost argvs = ast_view_list(arguments@);
                proof {
                    ast_view_list_props(arguments@);
                    assert(argvs.subrange(0, argvs.len() as int) =~= argvs);
                }
                let n = arguments.len();
                let mut i: usize = 0;
                while i < n
                    invariant
                        i <= n,
                        spec_uses_restore(self@) == spec_list_uses_restore(
                            argvs.subrange(i as int, n as int),
                        ),
                    decreases n - i,
                {
                    proof {
                        let ghost tail = argvs.subrange(i as int, n as int);
                        assert(tail[0] == argvs[i as int]);
                        assert(tail.subrange(1, tail.len() as int) =~= argvs.subrange(
                            i + 1,
                            n as int,
                        ));
                        ast_size_list_bound(argvs, i as int);
                    }
                    if (&arguments[i]).uses_restore() {
                        return true;
                    }
                    i = i + 1;
                }
                proof {
                    assert(argvs.subrange(n as int, n as int).len() == 0);
                }
                false
            },
        }
    }
}

/// The percent literals of the expression, in evaluation order.
pub open spec fn percent_seq(a: AstView) -> Seq<(ChangeDirection, u16)>
    decreases ast_size(a), 0int,
{
    match a {
        AstView::Literal { direction, value, percent } => if percent {
            seq![(direction, value)]
        } else {
            Seq::empty()
        },
        AstView::Function { arguments, .. } => percent_seq_list(arguments),
    }
}

pub open spec fn percent_seq_list(args: Seq<AstView>) -> Seq<(ChangeDirection, u16)>
    decreases ast_size_list(args), 1int,
    via percent_seq_list_decreases
{
    if args.len() == 0 {
        Seq::empty()
    } else {
        percent_seq(args[0]) + percent_seq_list(args.subrange(1, args.len() as int))
    }
}

#[via_fn]
proof fn percent_seq_list_decreases(args: Seq<AstView>) {
    if args.len() > 0 {
        ast_size_positive(args[0]);
    }
}

/// Extending the prefix by one expression appends its percent literals.
proof fn percent_seq_list_snoc(args: Seq<AstView>, i: int)
    requires
        0 <= i < args.len(),
    ensures
        percent_seq_list(args.subrange(0, i + 1)) == percent_seq_list(args.subrange(0, i))
            + percent_seq(args[i]),
    decreases i,
{
    let pre = args.subrange(0, i);
    let ext = args.subrange(0, i + 1);
    if i == 0 {
        assert(ext[0] == args[0]);
        assert(ext.subrange(1, ext.len() as int) =~= Seq::<AstView>::empty());
        assert(percent_seq_list(Seq::<AstView>::empty()) =~= Seq::<(ChangeDirection, u16)>::empty());
        assert(percent_seq_list(ext) =~= percent_seq(args[0]));
        assert(percent_seq_list(pre) =~= Seq::<(ChangeDirection, u16)>::empty());
        assert(percent_seq_list(pre) + percent_seq(args[0]) =~= percent_seq(args[0]));
    } else {
        let args1 = args.subrange(1, args.len() as int);
        assert(ext[0] == args[0]);
        assert(pre[0] == args[0]);
        assert(ext.subrange(1, ext.len() as int) =~= args1.subrange(0, i));
        assert(pre.subrange(1, pre.len() as int) =~= args1.subrange(0, i - 1));
        assert(args1[i - 1] == args[i]);
        percent_seq_list_snoc(args1, i - 1);
        assert(percent_seq_list(ext) == percent_seq(args[0]) + percent_seq_list(
            args1.subrange(0, i),
        ));
        assert(percent_seq_list(pre) == percent_seq(args[0]) + percent_seq_list(
            args1.subrange(0, i - 1),
        ));
        assert(percent_seq(args[0]) + (percent_seq_list(args1.subrange(0, i - 1)) + percent_seq(
            args[i],
        )) =~= (percent_seq(args[0]) + percent_seq_list(args1.subrange(0, i - 1))) + percent_seq(
            args[i],
        ));
    }
}

/// Membership distributes over concatenation.
proof fn concat_contains(s1: Seq<(ChangeDirection, u16)>, s2: Seq<(ChangeDirection, u16)>, x: (
    ChangeDirection,
    u16,
))
    ensures
        (s1 + s2).contains(x) == (s1.contains(x) || s2.contains(x)),
{
    if s1.contains(x) {
        let k = choose|k: int| 0 <= k < s1.len() && s1[k] == x;
        assert((s1 + s2)[k] == x);
    }
    if s2.contains(x) {
        let k = choose|k: int| 0 <= k < s2.len() && s2[k] == x;
        assert((s1 + s2)[s1.len() + k] == x);
    }
    if (s1 + s2).contains(x) {
        let k = choose|k: int| 0 <= k < (s1 + s2).len() && (s1 + s2)[k] == x;
        if k < s1.len() {
            assert(s1[k] == x);
        } else {
            assert(s2[k - s1.len()] == x);
        }
    }
}

/// The percent literals collected are exactly those the expression
/// holds.
pub proof fn percent_seq_characterizes(a: AstView)
    ensures
        forall|d: ChangeDirection, v: u16|
            percent_seq(a).contains((d, v)) == spec_has_percent_literal(a, d, v),
    decreases ast_size(a), 0int,
{
    match a {
        AstView::Literal { direction, value, percent } => {
            assert forall|d: ChangeDirection, v: u16|
                percent_seq(a).contains((d, v)) == spec_has_percent_literal(a, d, v) by {
                if percent && (d, v) == (direction, value) {
                    assert(percent_seq(a)[0] == (d, v));
                }
                if percent_seq(a).contains((d, v)) {
                    let k = choose|k: int|
                        0 <= k < percent_seq(a).len() && percent_seq(a)[k] == (d, v);
                    assert(percent_seq(a)[k] == (d, v));
                }
            }
        },
        AstView::Function { arguments, .. } => {
            percent_seq_list_characterizes(arguments);
            assert forall|d: ChangeDirection, v: u16|
                percent_seq(a).contains((d, v)) == spec_has_percent_literal(a, d, v) by {
                assert(percent_seq_list(arguments).contains((d, v)) == spec_list_has_percent(
                    arguments,
                    d,
                    v,
                ));
            }
        },
    }
}

proof fn percent_seq_list_characterizes(args: Seq<AstView>)
    ensures
        forall|d: ChangeDirection, v: u16|
            percent_seq_list(args).contains((d, v)) == spec_list_has_percent(args, d, v),
    decreases ast_size_list(args), 1int,
{
    if args.len() == 0 {
        assert forall|d: ChangeDirection, v: u16|
            percent_seq_list(args).contains((d, v)) == spec_list_has_percent(args, d, v) by {
            if percent_seq_list(args).contains((d, v)) {
                let k = choose|k: int|
                    0 <= k < percent_seq_list(args).len() && percent_seq_list(args)[k] == (d, v);
            }
        }
    } else {
        let rest = args.subrange(1, args.len() as int);
        ast_size_positive(args[0]);
        percent_seq_characterizes(args[0]);
        percent_seq_list_characterizes(rest);
        assert forall|d: ChangeDirection, v: u16|
            percent_seq_list(args).contains((d, v)) == spec_list_has_percent(args, d, v) by {
            concat_contains(percent_seq(args[0]), percent_seq_list(rest), (d, v));
            assert(percent_seq(args[0]).contains((d, v)) == spec_has_percent_literal(
                args[0],
                d,
                v,
            ));
            assert(percent_seq_list(rest).contains((d, v)) == spec_list_has_percent(rest, d, v));
        }
    }
}

} // verus!
