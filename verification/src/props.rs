//! Laws of the argument interpreter, stated over its specification
//! functions and proved for all inputs.

use vstd::prelude::*;

use crate::cmdline::Capabilities;
use crate::cmdline::ConfigModel;
use crate::cmdline::PState;
use crate::cmdline::SpecResult;
use crate::cmdline::StepResult;
use crate::cmdline::default_model;
use crate::cmdline::help_text_spec;
use crate::cmdline::interp;
use crate::cmdline::msg_missing;
use crate::cmdline::msg_unrecognized;
use crate::cmdline::parse_spec;
use crate::cmdline::step;
use crate::cmdline::step_ready;
use crate::cmdline::version_text_spec;
use crate::tokenize::glue_all;
use crate::tokenize::glue_split;
use crate::tokenize::lemma_glue_all_append;
use crate::tokenize::lemma_split_all_append;
use crate::tokenize::lemma_split_on_absent;
use crate::tokenize::lemma_split_on_prefix;
use crate::tokenize::preprocess_spec;
use crate::tokenize::split_all;
use crate::tokenize::split_on;

verus! {

/// The tokenizer handles each argument independently.
pub proof fn lemma_preprocess_append(a: Seq<Seq<char>>, b: Seq<Seq<char>>)
    ensures
        preprocess_spec(a + b) == preprocess_spec(a) + preprocess_spec(b),
{
    lemma_split_all_append(a, b);
    lemma_glue_all_append(split_all(a), split_all(b));
}

/// An argument with no `=` that the glue pass keeps whole passes through
/// the tokenizer unchanged.
pub proof fn lemma_preprocess_single(t: Seq<char>)
    requires
        forall|j: int| 0 <= j < t.len() ==> t[j] != '=',
        glue_split(t) == seq![t],
    ensures
        preprocess_spec(seq![t]) == seq![t],
{
    lemma_split_on_absent(t, '=');
    assert(seq![t].drop_first() =~~= Seq::<Seq<char>>::empty());
    assert(split_all(Seq::<Seq<char>>::empty()) =~~= Seq::<Seq<char>>::empty());
    assert(split_all(seq![t]) =~~= split_on(t, '=') + split_all(seq![t].drop_first()));
    assert(split_all(seq![t]) =~~= seq![t]);
    assert(glue_all(Seq::<Seq<char>>::empty()) =~~= Seq::<Seq<char>>::empty());
    assert(glue_all(seq![t]) =~~= glue_split(t) + glue_all(seq![t].drop_first()));
    assert(glue_all(seq![t]) =~~= seq![t]);
}

/// The state machine consumes a concatenation of streams in sequence: a
/// terminal result of the first part stands, otherwise the second part is
/// consumed from where the first left off.
pub proof fn lemma_interp_append(
    caps: Capabilities,
    a: Seq<Seq<char>>,
    b: Seq<Seq<char>>,
    st: PState,
    c: ConfigModel,
)
    ensures
        interp(caps, a + b, st, c) == (match interp(caps, a, st, c) {
            StepResult::Next(st2, c2) => interp(caps, b, st2, c2),
            r => r,
        }),
    decreases a.len(),
{
    if a.len() == 0 {
        assert(a + b =~~= b);
    } else {
        assert((a + b)[0] == a[0]);
        assert((a + b).drop_first() =~~= a.drop_first() + b);
        match step(caps, st, c, a[0]) {
            StepResult::Next(st2, c2) => {
                lemma_interp_append(caps, a.drop_first(), b, st2, c2);
            },
            _ => {},
        }
    }
}

/// Splitting on `=` cuts a joined `flag=value` token into its two parts.
pub proof fn lemma_split_on_joined(f: Seq<char>, v: Seq<char>)
    requires
        forall|j: int| 0 <= j < f.len() ==> f[j] != '=',
        forall|j: int| 0 <= j < v.len() ==> v[j] != '=',
    ensures
        split_on(f + seq!['='] + v, '=') == seq![f, v],
{
    let s = f + seq!['='] + v;
    assert(forall|j: int| 0 <= j < f.len() ==> s[j] == f[j]);
    lemma_split_on_prefix(s, '=', f.len() as int);
    let tail = s.skip(f.len() as int);
    assert(tail =~= seq!['='] + v);
    assert(tail[0] == '=');
    assert(tail.drop_first() =~= v);
    lemma_split_on_absent(v, '=');
    let q = split_on(tail, '=');
    assert(q =~~= seq![Seq::<char>::empty(), v]);
    assert(s.take(f.len() as int) =~= f);
    assert(s.take(f.len() as int) + q[0] =~= f);
    assert(q.drop_first() =~~= seq![v]);
    assert(split_on(s, '=') =~~= seq![f, v]);
}

/// Law: a flag given as two tokens, as one `=`-joined token, or — for a
/// two-character short flag and a non-empty value — glued into a single
/// token, is interpreted identically in any surrounding argument list, so
/// all three forms yield the same configuration or the same terminal
/// result.  The value must be one the tokenizer keeps whole.
pub proof fn lemma_flag_value_forms(
    caps: Capabilities,
    pre: Seq<Seq<char>>,
    f: Seq<char>,
    v: Seq<char>,
    post: Seq<Seq<char>>,
)
    requires
        forall|j: int| 0 <= j < f.len() ==> f[j] != '=',
        forall|j: int| 0 <= j < v.len() ==> v[j] != '=',
        glue_split(f) == seq![f],
        glue_split(v) == seq![v],
    ensures
        parse_spec(caps, pre + seq![f + seq!['='] + v] + post) == parse_spec(
            caps,
            pre + seq![f, v] + post,
        ),
        (f.len() == 2 && f[0] == '-' && f[1] != '-' && v.len() > 0) ==> parse_spec(
            caps,
            pre + seq![f + v] + post,
        ) == parse_spec(caps, pre + seq![f, v] + post),
{
    lemma_split_on_absent(f, '=');
    lemma_split_on_absent(v, '=');
    // the separate form tokenizes to [f, v]
    let sep = seq![f, v];
    assert(sep.drop_first() =~~= seq![v]);
    assert(seq![v].drop_first() =~~= Seq::<Seq<char>>::empty());
    assert(split_all(Seq::<Seq<char>>::empty()) =~~= Seq::<Seq<char>>::empty());
    assert(split_all(seq![v]) =~~= seq![v]);
    assert(split_all(sep) =~~= seq![f, v]);
    assert(glue_all(Seq::<Seq<char>>::empty()) =~~= Seq::<Seq<char>>::empty());
    assert(glue_all(seq![v]) =~~= seq![v]);
    assert(glue_all(sep) =~~= seq![f, v]);
    assert(preprocess_spec(sep) == seq![f, v]);
    // the joined form tokenizes to [f, v]
    let joined = seq![f + seq!['='] + v];
    lemma_split_on_joined(f, v);
    assert(joined.drop_first() =~~= Seq::<Seq<char>>::empty());
    assert(split_all(joined) =~~= seq![f, v]);
    assert(preprocess_spec(joined) == seq![f, v]);
    lemma_preprocess_append(pre, joined);
    lemma_preprocess_append(pre + joined, post);
    lemma_preprocess_append(pre, sep);
    lemma_preprocess_append(pre + sep, post);
    assert(preprocess_spec(pre + joined + post) == preprocess_spec(pre + sep + post));
    // the glued form, when it applies, tokenizes to [f, v] as well
    if f.len() == 2 && f[0] == '-' && f[1] != '-' && v.len() > 0 {
        let glued = seq![f + v];
        assert(forall|j: int| 0 <= j < (f + v).len() ==> (f + v)[j] != '=');
        lemma_split_on_absent(f + v, '=');
        assert(glued.drop_first() =~~= Seq::<Seq<char>>::empty());
        assert(split_all(glued) =~~= seq![f + v]);
        assert((f + v).len() > 2 && (f + v)[0] == '-' && (f + v)[1] != '-');
        assert((f + v).take(2) =~= f);
        assert((f + v).skip(2) =~= v);
        assert(glue_split(f + v) =~~= seq![f, v]);
        assert(seq![f + v].drop_first() =~~= Seq::<Seq<char>>::empty());
        assert(glue_all(seq![f + v]) =~~= seq![f, v]);
        assert(preprocess_spec(glued) == seq![f, v]);
        lemma_preprocess_append(pre, glued);
        lemma_preprocess_append(pre + glued, post);
        assert(preprocess_spec(pre + glued + post) == preprocess_spec(pre + sep + post));
    }
}

proof fn lemma_interp_preserves_rk(
    caps: Capabilities,
    toks: Seq<Seq<char>>,
    st: PState,
    c: ConfigModel,
)
    requires
        1 <= c.rk_order <= 3,
    ensures
        (interp(caps, toks, st, c) matches StepResult::Next(st2, c2) ==> 1 <= c2.rk_order <= 3),
    decreases toks.len(),
{
    if toks.len() > 0 {
        match step(caps, st, c, toks[0]) {
            StepResult::Next(st2, c2) => {
                assert(1 <= c2.rk_order <= 3);
                lemma_interp_preserves_rk(caps, toks.drop_first(), st2, c2);
            },
            _ => {},
        }
    }
}

/// Law: a configuration the interpreter accepts always carries a
/// Runge-Kutta order in 1..=3; any other requested order fails the parse.
pub proof fn lemma_rk_order_in_range(caps: Capabilities, args: Seq<Seq<char>>, c: ConfigModel)
    requires
        parse_spec(caps, args) == SpecResult::Config(c),
    ensures
        1 <= c.rk_order <= 3,
{
    lemma_interp_preserves_rk(caps, preprocess_spec(args), PState::Ready, default_model());
}

/// Law: no accepted configuration enables both execution backends,
/// whatever the order the two flags were given in.
pub proof fn lemma_exclusive_flags_rejected(
    caps: Capabilities,
    args: Seq<Seq<char>>,
    c: ConfigModel,
)
    requires
        parse_spec(caps, args) == SpecResult::Config(c),
    ensures
        !(c.use_omp && c.use_gpu),
{
}

/// The flag tokens that must be followed by a value.
pub open spec fn takes_value(t: Seq<char>) -> bool {
    t == "-n"@ || t == "--resolution"@ || t == "--res"@ || t == "-f"@ || t == "--fold"@ || t
        == "-c"@ || t == "--checkpoint"@ || t == "-e"@ || t == "--end-time"@ || t == "-r"@ || t
        == "--rk-order"@ || t == "--cfl"@ || t == "-o"@ || t == "--outdir"@
}

/// The tokens the machine recognizes in `Ready` under a capability set.
pub open spec fn recognized(caps: Capabilities, t: Seq<char>) -> bool {
    t == "--version"@ || t == "-h"@ || t == "--help"@ || (caps.has_omp && (t == "-p"@ || t
        == "--use-omp"@)) || (caps.has_gpu && (t == "-g"@ || t == "--use-gpu"@)) || takes_value(t)
}

/// Law: when the stream so far leaves the machine in `Ready`, ending it
/// with a value-taking flag always fails; unless the stream already chose
/// both exclusive backends, the failure is the dangling-flag error.
#[verifier::rlimit(50)]
pub proof fn lemma_dangling_flag(
    caps: Capabilities,
    args: Seq<Seq<char>>,
    f: Seq<char>,
    c: ConfigModel,
)
    requires
        interp(caps, preprocess_spec(args), PState::Ready, default_model()) == StepResult::Next(
            PState::Ready,
            c,
        ),
        takes_value(f),
        forall|j: int| 0 <= j < f.len() ==> f[j] != '=',
        glue_split(f) == seq![f],
    ensures
        (parse_spec(caps, args + seq![f]) matches SpecResult::Fail(_)),
        !(c.use_omp && c.use_gpu) ==> parse_spec(caps, args + seq![f]) == SpecResult::Fail(
            msg_missing(),
        ),
{
    reveal_strlit("--version");
    reveal_strlit("-h");
    reveal_strlit("--help");
    reveal_strlit("-p");
    reveal_strlit("--use-omp");
    reveal_strlit("-g");
    reveal_strlit("--use-gpu");
    reveal_strlit("-n");
    reveal_strlit("--resolution");
    reveal_strlit("--res");
    reveal_strlit("-f");
    reveal_strlit("--fold");
    reveal_strlit("-c");
    reveal_strlit("--checkpoint");
    reveal_strlit("-e");
    reveal_strlit("--end-time");
    reveal_strlit("-r");
    reveal_strlit("--rk-order");
    reveal_strlit("--cfl");
    reveal_strlit("-o");
    reveal_strlit("--outdir");
    lemma_preprocess_append(args, seq![f]);
    lemma_preprocess_single(f);
    lemma_interp_append(caps, preprocess_spec(args), seq![f], PState::Ready, default_model());
    assert(seq![f].drop_first() =~~= Seq::<Seq<char>>::empty());
    assert("--version"@.len() == 9 && "--version"@[2] == 'v');
    assert("-h"@.len() == 2 && "-h"@[1] == 'h');
    assert("--help"@.len() == 6 && "--help"@[2] == 'h');
    assert("-p"@.len() == 2 && "-p"@[1] == 'p');
    assert("--use-omp"@.len() == 9 && "--use-omp"@[2] == 'u' && "--use-omp"@[6] == 'o');
    assert("-g"@.len() == 2 && "-g"@[1] == 'g');
    assert("--use-gpu"@.len() == 9 && "--use-gpu"@[2] == 'u' && "--use-gpu"@[6] == 'g');
    assert("-n"@.len() == 2 && "-n"@[1] == 'n');
    assert("--resolution"@.len() == 12 && "--resolution"@[2] == 'r');
    assert("--res"@.len() == 5 && "--res"@[2] == 'r');
    assert("-f"@.len() == 2 && "-f"@[1] == 'f');
    assert("--fold"@.len() == 6 && "--fold"@[2] == 'f');
    assert("-c"@.len() == 2 && "-c"@[1] == 'c');
    assert("--checkpoint"@.len() == 12 && "--checkpoint"@[2] == 'c');
    assert("-e"@.len() == 2 && "-e"@[1] == 'e');
    assert("--end-time"@.len() == 10 && "--end-time"@[2] == 'e');
    assert("-r"@.len() == 2 && "-r"@[1] == 'r');
    assert("--rk-order"@.len() == 10 && "--rk-order"@[2] == 'r');
    assert("--cfl"@.len() == 5 && "--cfl"@[2] == 'c');
    assert("-o"@.len() == 2 && "-o"@[1] == 'o');
    assert("--outdir"@.len() == 8 && "--outdir"@[2] == 'o');
    let r = step_ready(caps, c, f);
    if f == "-n"@ {
        assert(r == StepResult::Next(PState::GridResolution, c));
    } else if f == "--resolution"@ {
        assert(r == StepResult::Next(PState::GridResolution, c));
    } else if f == "--res"@ {
        assert(r == StepResult::Next(PState::GridResolution, c));
    } else if f == "-f"@ {
        assert(r == StepResult::Next(PState::Fold, c));
    } else if f == "--fold"@ {
        assert(r == StepResult::Next(PState::Fold, c));
    } else if f == "-c"@ {
        assert(r == StepResult::Next(PState::Checkpoint, c));
    } else if f == "--checkpoint"@ {
        assert(r == StepResult::Next(PState::Checkpoint, c));
    } else if f == "-e"@ {
        assert(r == StepResult::Next(PState::EndTime, c));
    } else if f == "--end-time"@ {
        assert(r == StepResult::Next(PState::EndTime, c));
    } else if f == "-r"@ {
        assert(r == StepResult::Next(PState::RkOrder, c));
    } else if f == "--rk-order"@ {
        assert(r == StepResult::Next(PState::RkOrder, c));
    } else if f == "--cfl"@ {
        assert(r == StepResult::Next(PState::Cfl, c));
    } else if f == "-o"@ {
        assert(r == StepResult::Next(PState::Outdir, c));
    } else {
        assert(f == "--outdir"@);
        assert(r == StepResult::Next(PState::Outdir, c));
    }
    assert((match r {
        StepResult::Next(st2, c2) => st2 != PState::Ready && c2 == c,
        _ => false,
    }));
    match r {
        StepResult::Next(st2, c2) => {
            assert(seq![f][0] == f);
            assert(step(caps, PState::Ready, c, f) == r);
            assert(interp(caps, Seq::<Seq<char>>::empty(), st2, c2) == StepResult::Next(st2, c2));
            assert(interp(caps, seq![f], PState::Ready, c) == StepResult::Next(st2, c2));
            assert(interp(
                caps,
                preprocess_spec(args + seq![f]),
                PState::Ready,
                default_model(),
            ) == StepResult::Next(st2, c2));
        },
        _ => {},
    }
}

/// Law: a token the machine does not recognize in `Ready` fails the parse
/// with a message naming that exact token, whatever tokens follow.
pub proof fn lemma_unrecognized_token(
    caps: Capabilities,
    args: Seq<Seq<char>>,
    t: Seq<char>,
    post: Seq<Seq<char>>,
    c: ConfigModel,
)
    requires
        interp(caps, preprocess_spec(args), PState::Ready, default_model()) == StepResult::Next(
            PState::Ready,
            c,
        ),
        !recognized(caps, t),
        forall|j: int| 0 <= j < t.len() ==> t[j] != '=',
        glue_split(t) == seq![t],
    ensures
        parse_spec(caps, args + seq![t] + post) == SpecResult::Fail(msg_unrecognized(t)),
{
    lemma_preprocess_append(args, seq![t]);
    lemma_preprocess_append(args + seq![t], post);
    lemma_preprocess_single(t);
    let x = preprocess_spec(args);
    let z = preprocess_spec(post);
    assert(preprocess_spec(args + seq![t] + post) =~~= x + (seq![t] + z));
    lemma_interp_append(caps, x, seq![t] + z, PState::Ready, default_model());
    assert((seq![t] + z)[0] == t);
    assert(step_ready(caps, c, t) == StepResult::Fail(msg_unrecognized(t)));
}

/// Law: a help or version request reaching the machine in `Ready`
/// short-circuits with informational output, whatever tokens follow, even
/// invalid ones.
pub proof fn lemma_help_version_short_circuit(
    caps: Capabilities,
    args: Seq<Seq<char>>,
    t: Seq<char>,
    post: Seq<Seq<char>>,
    c: ConfigModel,
)
    requires
        interp(caps, preprocess_spec(args), PState::Ready, default_model()) == StepResult::Next(
            PState::Ready,
            c,
        ),
        t == "--version"@ || t == "-h"@ || t == "--help"@,
    ensures
        t == "--version"@ ==> parse_spec(caps, args + seq![t] + post) == SpecResult::Info(
            version_text_spec(),
        ),
        (t == "-h"@ || t == "--help"@) ==> parse_spec(caps, args + seq![t] + post)
            == SpecResult::Info(help_text_spec(caps)),
{
    reveal_strlit("--version");
    reveal_strlit("-h");
    reveal_strlit("--help");
    reveal_strlit("-p");
    reveal_strlit("--use-omp");
    reveal_strlit("-g");
    reveal_strlit("--use-gpu");
    reveal_strlit("-n");
    reveal_strlit("--resolution");
    reveal_strlit("--res");
    reveal_strlit("-f");
    reveal_strlit("--fold");
    reveal_strlit("-c");
    reveal_strlit("--checkpoint");
    reveal_strlit("-e");
    reveal_strlit("--end-time");
    reveal_strlit("-r");
    reveal_strlit("--rk-order");
    reveal_strlit("--cfl");
    reveal_strlit("-o");
    reveal_strlit("--outdir");
    assert(forall|j: int| 0 <= j < t.len() ==> t[j] != '=');
    assert(glue_split(t) == seq![t]);
    lemma_preprocess_append(args, seq![t]);
    lemma_preprocess_append(args + seq![t], post);
    lemma_preprocess_single(t);
    let x = preprocess_spec(args);
    let z = preprocess_spec(post);
    assert(preprocess_spec(args + seq![t] + post) =~~= x + (seq![t] + z));
    lemma_interp_append(caps, x, seq![t] + z, PState::Ready, default_model());
    assert((seq![t] + z)[0] == t);
}

} // verus!
