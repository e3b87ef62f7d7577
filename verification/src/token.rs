//! Stable text tokens of enumerations, and lists made canonical by them.

use vstd::prelude::*;

use crate::capability::{EffectKind, RuntimeKind};
use crate::text::{
    lemma_text_before_irreflexive, lemma_text_before_total, lemma_text_before_transitive, precedes,
    same_text, text_before,
};

verus! {

/// A value with a stable text token.
pub trait Token: Copy {
    /// The token.
    spec fn token_text(self) -> Seq<char>;

    /// The token.
    fn token(self) -> (r: &'static str)
        ensures
            r@ == self.token_text(),
    ;
}

/// The token of a runtime kind.
pub open spec fn runtime_token(runtime: RuntimeKind) -> Seq<char> {
    match runtime {
        RuntimeKind::Wasm => "wasm"@,
        RuntimeKind::Mcp => "mcp"@,
        RuntimeKind::Script => "script"@,
        RuntimeKind::FirstParty => "first_party"@,
        RuntimeKind::System => "system"@,
    }
}

/// The token of an effect.
pub open spec fn effect_token(effect: EffectKind) -> Seq<char> {
    match effect {
        EffectKind::ReadFilesystem => "read_filesystem"@,
        EffectKind::WriteFilesystem => "write_filesystem"@,
        EffectKind::DeleteFilesystem => "delete_filesystem"@,
        EffectKind::Network => "network"@,
        EffectKind::UseSecret => "use_secret"@,
        EffectKind::ExecuteCode => "execute_code"@,
        EffectKind::SpawnProcess => "spawn_process"@,
        EffectKind::DispatchCapability => "dispatch_capability"@,
        EffectKind::ModifyExtension => "modify_extension"@,
        EffectKind::ModifyApproval => "modify_approval"@,
        EffectKind::ModifyBudget => "modify_budget"@,
        EffectKind::ExternalWrite => "external_write"@,
        EffectKind::Financial => "financial"@,
    }
}

/// The token of a runtime kind.
pub fn runtime_kind_token(runtime: RuntimeKind) -> (r: &'static str)
    ensures
        r@ == runtime_token(runtime),
{
    match runtime {
        RuntimeKind::Wasm => "wasm",
        RuntimeKind::Mcp => "mcp",
        RuntimeKind::Script => "script",
        RuntimeKind::FirstParty => "first_party",
        RuntimeKind::System => "system",
    }
}

/// The token of an effect.
pub fn effect_kind_token(effect: EffectKind) -> (r: &'static str)
    ensures
        r@ == effect_token(effect),
{
    match effect {
        EffectKind::ReadFilesystem => "read_filesystem",
        EffectKind::WriteFilesystem => "write_filesystem",
        EffectKind::DeleteFilesystem => "delete_filesystem",
        EffectKind::Network => "network",
        EffectKind::UseSecret => "use_secret",
        EffectKind::ExecuteCode => "execute_code",
        EffectKind::SpawnProcess => "spawn_process",
        EffectKind::DispatchCapability => "dispatch_capability",
        EffectKind::ModifyExtension => "modify_extension",
        EffectKind::ModifyApproval => "modify_approval",
        EffectKind::ModifyBudget => "modify_budget",
        EffectKind::ExternalWrite => "external_write",
        EffectKind::Financial => "financial",
    }
}

impl Token for RuntimeKind {
    open spec fn token_text(self) -> Seq<char> {
        runtime_token(self)
    }

    fn token(self) -> (r: &'static str) {
        runtime_kind_token(self)
    }
}

impl Token for EffectKind {
    open spec fn token_text(self) -> Seq<char> {
        effect_token(self)
    }

    fn token(self) -> (r: &'static str) {
        effect_kind_token(self)
    }
}

/// `item` put into a list that is ordered by token, unless its token is there.
pub open spec fn inserted<T: Token>(sorted: Seq<T>, item: T) -> Seq<T>
    decreases sorted.len(),
{
    if sorted.len() == 0 {
        seq![item]
    } else if text_before(sorted[0].token_text(), item.token_text()) {
        seq![sorted[0]] + inserted(sorted.drop_first(), item)
    } else if sorted[0].token_text() == item.token_text() {
        sorted
    } else {
        seq![item] + sorted
    }
}

/// The items in the order of their tokens, each token once.
pub open spec fn canonical<T: Token>(items: Seq<T>) -> Seq<T>
    decreases items.len(),
{
    if items.len() == 0 {
        Seq::empty()
    } else {
        inserted(canonical(items.drop_last()), items.last())
    }
}

/// The tokens of some items.
pub open spec fn tokens_of<T: Token>(items: Seq<T>) -> Seq<Seq<char>> {
    items.map_values(|item: T| item.token_text())
}

/// Texts in strictly ascending order.
pub open spec fn ascending(texts: Seq<Seq<char>>) -> bool {
    forall|i: int, j: int|
        0 <= i < j < texts.len() ==> text_before(#[trigger] texts[i], #[trigger] texts[j])
}

proof fn lemma_inserted_at<T: Token>(sorted: Seq<T>, item: T, at: int)
    requires
        0 <= at <= sorted.len(),
        forall|k: int|
            0 <= k < at ==> text_before((#[trigger] sorted[k]).token_text(), item.token_text()),
        at < sorted.len() ==> !text_before(sorted[at].token_text(), item.token_text()),
    ensures
        inserted(sorted, item) == (if at < sorted.len() && sorted[at].token_text()
            == item.token_text() {
            sorted
        } else {
            sorted.insert(at, item)
        }),
    decreases at,
{
    if at > 0 {
        let rest = sorted.drop_first();
        assert forall|k: int| 0 <= k < at - 1 implies text_before(
            (#[trigger] rest[k]).token_text(),
            item.token_text(),
        ) by {
            assert(rest[k] == sorted[k + 1]);
        }
        lemma_inserted_at(rest, item, at - 1);
        assert(text_before(sorted[0].token_text(), item.token_text()));
        if at < sorted.len() && sorted[at].token_text() == item.token_text() {
            assert(seq![sorted[0]] + rest =~= sorted);
        } else {
            assert(seq![sorted[0]] + rest.insert(at - 1, item) =~= sorted.insert(at, item));
        }
    } else if sorted.len() == 0 {
        assert(sorted.insert(0, item) =~= seq![item]);
    } else {
        assert(sorted.insert(0, item) =~= seq![item] + sorted);
    }
}

/// The items in the order of their tokens, each token once.
pub fn canonical_list<T: Token>(items: &Vec<T>) -> (r: Vec<T>)
    ensures
        r@ == canonical(items@),
{
    let mut out: Vec<T> = Vec::new();
    let mut i: usize = 0;
    while i < items.len()
        invariant
            i <= items@.len(),
            out@ == canonical(items@.take(i as int)),
        decreases items@.len() - i,
    {
        let item = items[i];
        let token = item.token();
        let mut at: usize = 0;
        while at < out.len() && precedes(out[at].token(), token)
            invariant
                at <= out@.len(),
                token@ == item.token_text(),
                forall|k: int|
                    0 <= k < at ==> text_before((#[trigger] out@[k]).token_text(), token@),
            ensures
                at <= out@.len(),
                forall|k: int|
                    0 <= k < at ==> text_before((#[trigger] out@[k]).token_text(), token@),
                at < out@.len() ==> !text_before(out@[at as int].token_text(), token@),
            decreases out@.len() - at,
        {
            at = at + 1;
        }
        proof {
            lemma_inserted_at(out@, item, at as int);
            assert(items@.take(i + 1).drop_last() =~= items@.take(i as int));
        }
        if at >= out.len() || !same_text(out[at].token(), token) {
            out.insert(at, item);
        }
        i = i + 1;
    }
    assert(items@.take(items@.len() as int) =~= items@);
    out
}

/// The tokens of the items in ascending order, each once.
pub fn canonical_tokens<T: Token>(items: &Vec<T>) -> (r: Vec<&'static str>)
    ensures
        r.deep_view() == tokens_of(canonical(items@)),
{
    let list = canonical_list(items);
    let mut out: Vec<&'static str> = Vec::new();
    let mut i: usize = 0;
    while i < list.len()
        invariant
            i <= list@.len(),
            out.deep_view() == tokens_of(list@.take(i as int)),
        decreases list@.len() - i,
    {
        let ghost before = out.deep_view();
        let token = list[i].token();
        out.push(token);
        assert(out.deep_view() =~= before.push(token@));
        assert(before.push(token@) =~= tokens_of(list@.take(i + 1)));
        i = i + 1;
    }
    assert(list@.take(list@.len() as int) =~= list@);
    out
}

/// The runtime tokens of a list, in ascending order, each once.
pub fn canonical_runtime_kinds(runtimes: &Vec<RuntimeKind>) -> (r: Vec<&'static str>)
    ensures
        r.deep_view() == tokens_of(canonical(runtimes@)),
{
    canonical_tokens(runtimes)
}

/// The effect tokens of a list, in ascending order, each once.
pub fn canonical_effect_kinds(effects: &Vec<EffectKind>) -> (r: Vec<&'static str>)
    ensures
        r.deep_view() == tokens_of(canonical(effects@)),
{
    canonical_tokens(effects)
}

proof fn lemma_inserted<T: Token>(sorted: Seq<T>, item: T)
    requires
        ascending(tokens_of(sorted)),
    ensures
        ascending(tokens_of(inserted(sorted, item))),
        forall|t: Seq<char>|
            #![trigger tokens_of(inserted(sorted, item)).contains(t)]
            tokens_of(inserted(sorted, item)).contains(t) <==> tokens_of(sorted).contains(t) || t
                == item.token_text(),
{
    let tokens = tokens_of(sorted);
    let at = lemma_place(sorted, item);
    lemma_inserted_at(sorted, item, at);
    let out = inserted(sorted, item);
    let after = tokens_of(out);
    if at < sorted.len() && sorted[at].token_text() == item.token_text() {
        assert(tokens[at] == item.token_text());
    } else {
        assert(after =~= tokens.insert(at, item.token_text()));
        if at < sorted.len() {
            lemma_text_before_total(sorted[at].token_text(), item.token_text());
        }
        assert forall|i: int, j: int| 0 <= i < j < after.len() implies text_before(
            #[trigger] after[i],
            #[trigger] after[j],
        ) by {
            if i == at {
                assert(after[j] == tokens[j - 1]);
                if j - 1 > at {
                    lemma_text_before_transitive(item.token_text(), tokens[at], tokens[j - 1]);
                }
            } else if j == at {
                assert(after[i] == tokens[i]);
                assert(text_before(sorted[i].token_text(), item.token_text()));
            } else {
                let a = if i < at { i } else { i - 1 };
                let b = if j < at { j } else { j - 1 };
                assert(after[i] == tokens[a] && after[j] == tokens[b]);
            }
        }
        assert forall|t: Seq<char>| #[trigger]
            after.contains(t) <==> tokens.contains(t) || t == item.token_text() by {
            if tokens.contains(t) {
                let k = choose|k: int| 0 <= k < tokens.len() && tokens[k] == t;
                assert(after[if k < at { k } else { k + 1 }] == t);
            }
            assert(after[at] == item.token_text());
            if after.contains(t) {
                let k = choose|k: int| 0 <= k < after.len() && after[k] == t;
                if k != at {
                    assert(tokens[if k < at { k } else { k - 1 }] == t);
                }
            }
        }
    }
}

proof fn lemma_place<T: Token>(sorted: Seq<T>, item: T) -> (at: int)
    requires
        ascending(tokens_of(sorted)),
    ensures
        0 <= at <= sorted.len(),
        forall|k: int|
            0 <= k < at ==> text_before((#[trigger] sorted[k]).token_text(), item.token_text()),
        at < sorted.len() ==> !text_before(sorted[at].token_text(), item.token_text()),
    decreases sorted.len(),
{
    if sorted.len() == 0 || !text_before(sorted[0].token_text(), item.token_text()) {
        0
    } else {
        let rest = sorted.drop_first();
        assert(tokens_of(rest) =~= tokens_of(sorted).drop_first());
        let at = lemma_place(rest, item);
        assert forall|k: int| 0 <= k < at + 1 implies text_before(
            (#[trigger] sorted[k]).token_text(),
            item.token_text(),
        ) by {
            if k > 0 {
                assert(rest[k - 1] == sorted[k]);
            }
        }
        at + 1
    }
}

/// A canonical list is in strictly ascending order of tokens, and holds exactly
/// the tokens of the given items.
pub proof fn law_canonical_is_ascending_and_complete<T: Token>(items: Seq<T>)
    ensures
        ascending(tokens_of(canonical(items))),
        forall|t: Seq<char>|
            #![trigger tokens_of(canonical(items)).contains(t)]
            tokens_of(canonical(items)).contains(t) <==> tokens_of(items).contains(t),
    decreases items.len(),
{
    if items.len() > 0 {
        let rest = items.drop_last();
        let last = items.last();
        law_canonical_is_ascending_and_complete(rest);
        lemma_inserted(canonical(rest), last);
        assert forall|t: Seq<char>| #[trigger]
            tokens_of(canonical(items)).contains(t) <==> tokens_of(items).contains(t) by {
            assert(tokens_of(items) =~= tokens_of(rest).push(last.token_text()));
            if tokens_of(items).contains(t) {
                let k = choose|k: int| 0 <= k < tokens_of(items).len() && tokens_of(items)[k] == t;
                if k < rest.len() {
                    assert(tokens_of(rest)[k] == t);
                }
            }
            if tokens_of(rest).contains(t) {
                let k = choose|k: int| 0 <= k < tokens_of(rest).len() && tokens_of(rest)[k] == t;
                assert(tokens_of(items)[k] == t);
            }
            assert(tokens_of(items)[rest.len() as int] == last.token_text());
        }
    }
}

/// Two ascending lists with the same members are the same list.
pub proof fn lemma_ascending_unique(a: Seq<Seq<char>>, b: Seq<Seq<char>>)
    requires
        ascending(a),
        ascending(b),
        forall|t: Seq<char>| #![auto] a.contains(t) <==> b.contains(t),
    ensures
        a == b,
    decreases a.len(),
{
    if a.len() == 0 {
        if b.len() > 0 {
            assert(b.contains(b[0]));
            assert(a.contains(b[0]));
        }
        assert(a =~= b);
    } else {
        assert(a.contains(a[0]));
        assert(b.contains(a[0]));
        assert(b.contains(b[0]));
        assert(a.contains(b[0]));
        let i = choose|i: int| 0 <= i < b.len() && b[i] == a[0];
        let j = choose|j: int| 0 <= j < a.len() && a[j] == b[0];
        if a[0] != b[0] {
            assert(text_before(b[0], b[i]));
            assert(text_before(a[0], a[j]));
            lemma_text_before_transitive(a[0], b[0], a[0]);
            lemma_text_before_irreflexive(a[0]);
        }
        let x = a.drop_first();
        let y = b.drop_first();
        assert forall|t: Seq<char>| #![auto] x.contains(t) <==> y.contains(t) by {
            if x.contains(t) {
                let k = choose|k: int| 0 <= k < x.len() && x[k] == t;
                assert(a[k + 1] == t);
                assert(text_before(a[0], a[k + 1]));
                assert(a.contains(t));
                let m = choose|m: int| 0 <= m < b.len() && b[m] == t;
                if m == 0 {
                    lemma_text_before_irreflexive(a[0]);
                }
                assert(y[m - 1] == t);
            }
            if y.contains(t) {
                let k = choose|k: int| 0 <= k < y.len() && y[k] == t;
                assert(b[k + 1] == t);
                assert(text_before(b[0], b[k + 1]));
                assert(b.contains(t));
                let m = choose|m: int| 0 <= m < a.len() && a[m] == t;
                if m == 0 {
                    lemma_text_before_irreflexive(b[0]);
                }
                assert(x[m - 1] == t);
            }
        }
        assert forall|p: int, q: int| 0 <= p < q < x.len() implies text_before(
            #[trigger] x[p],
            #[trigger] x[q],
        ) by {
            assert(x[p] == a[p + 1] && x[q] == a[q + 1]);
        }
        assert forall|p: int, q: int| 0 <= p < q < y.len() implies text_before(
            #[trigger] y[p],
            #[trigger] y[q],
        ) by {
            assert(y[p] == b[p + 1] && y[q] == b[q + 1]);
        }
        lemma_ascending_unique(x, y);
        assert(a =~= seq![a[0]] + x);
        assert(b =~= seq![b[0]] + y);
    }
}

/// Order and duplicates of a list do not change its canonical tokens: two lists
/// with the same members have the same ones.
pub proof fn law_canonical_ignores_order_and_duplicates<T: Token>(left: Seq<T>, right: Seq<T>)
    requires
        forall|item: T| #![auto] left.contains(item) <==> right.contains(item),
    ensures
        tokens_of(canonical(left)) == tokens_of(canonical(right)),
{
    law_canonical_is_ascending_and_complete(left);
    law_canonical_is_ascending_and_complete(right);
    let a = tokens_of(canonical(left));
    let b = tokens_of(canonical(right));
    assert forall|t: Seq<char>| #![auto] a.contains(t) <==> b.contains(t) by {
        lemma_same_tokens(left, right, t);
        lemma_same_tokens(right, left, t);
    }
    lemma_ascending_unique(a, b);
}

proof fn lemma_same_tokens<T: Token>(left: Seq<T>, right: Seq<T>, t: Seq<char>)
    requires
        forall|item: T| #![auto] left.contains(item) ==> right.contains(item),
    ensures
        tokens_of(left).contains(t) ==> tokens_of(right).contains(t),
{
    if tokens_of(left).contains(t) {
        let k = choose|k: int| 0 <= k < tokens_of(left).len() && tokens_of(left)[k] == t;
        assert(left.contains(left[k]));
        assert(right.contains(left[k]));
        let m = choose|m: int| 0 <= m < right.len() && right[m] == left[k];
        assert(tokens_of(right)[m] == t);
    }
}

/// Different runtimes have different tokens.
pub proof fn law_tokens_tell_runtimes_apart(left: RuntimeKind, right: RuntimeKind)
    requires
        runtime_token(left) == runtime_token(right),
    ensures
        left == right,
{
    reveal_strlit("wasm");
    reveal_strlit("mcp");
    reveal_strlit("script");
    reveal_strlit("first_party");
    reveal_strlit("system");
    assert(runtime_token(left).len() == runtime_token(right).len());
    assert("wasm"@.len() == 4 && "mcp"@.len() == 3 && "script"@.len() == 6 && "first_party"@.len()
        == 11 && "system"@.len() == 6);
    assert(runtime_token(left)[1] == runtime_token(right)[1]);
    assert("script"@[1] == 'c' && "system"@[1] == 'y');
}

/// Different effects have different tokens.
pub proof fn law_tokens_tell_effects_apart(left: EffectKind, right: EffectKind)
    requires
        effect_token(left) == effect_token(right),
    ensures
        left == right,
{
    reveal_strlit("read_filesystem");
    reveal_strlit("write_filesystem");
    reveal_strlit("delete_filesystem");
    reveal_strlit("network");
    reveal_strlit("use_secret");
    reveal_strlit("execute_code");
    reveal_strlit("spawn_process");
    reveal_strlit("dispatch_capability");
    reveal_strlit("modify_extension");
    reveal_strlit("modify_approval");
    reveal_strlit("modify_budget");
    reveal_strlit("external_write");
    reveal_strlit("financial");
    assert(effect_token(left).len() == effect_token(right).len());
    assert(effect_token(left)[0] == effect_token(right)[0]);
    assert("read_filesystem"@.len() == 15 && "write_filesystem"@.len() == 16
        && "delete_filesystem"@.len() == 17 && "network"@.len() == 7 && "use_secret"@.len() == 10
        && "execute_code"@.len() == 12 && "spawn_process"@.len() == 13
        && "dispatch_capability"@.len() == 19 && "modify_extension"@.len() == 16
        && "modify_approval"@.len() == 15 && "modify_budget"@.len() == 13
        && "external_write"@.len() == 14 && "financial"@.len() == 9);
    assert("read_filesystem"@[0] == 'r' && "modify_approval"@[0] == 'm');
    assert("write_filesystem"@[0] == 'w' && "modify_extension"@[0] == 'm');
    assert("spawn_process"@[0] == 's' && "modify_budget"@[0] == 'm');
}

/// The canonical runtimes are exactly the given ones, each once and in the order of
/// their tokens.
pub proof fn law_canonical_runtimes_are_the_given_ones(items: Seq<RuntimeKind>)
    ensures
        forall|i: int, j: int|
            0 <= i < j < canonical(items).len() ==> text_before(
                runtime_token(#[trigger] canonical(items)[i]),
                runtime_token(#[trigger] canonical(items)[j]),
            ),
        forall|kind: RuntimeKind|
            #![trigger canonical(items).contains(kind)]
            canonical(items).contains(kind) <==> items.contains(kind),
        forall|kind: RuntimeKind|
            #![trigger tokens_of(canonical(items)).contains(runtime_token(kind))]
            tokens_of(canonical(items)).contains(runtime_token(kind)) <==> items.contains(kind),
{
    let sorted = canonical(items);
    let tokens = tokens_of(sorted);
    law_canonical_is_ascending_and_complete(items);
    assert forall|i: int, j: int| 0 <= i < j < sorted.len() implies text_before(
        runtime_token(#[trigger] sorted[i]),
        runtime_token(#[trigger] sorted[j]),
    ) by {
        assert(text_before(tokens[i], tokens[j]));
    }
    assert forall|kind: RuntimeKind|
        (sorted.contains(kind) <==> items.contains(kind)) && (tokens.contains(runtime_token(kind))
            <==> items.contains(kind)) by {
        let t = runtime_token(kind);
        assert(tokens.contains(t) <==> tokens_of(items).contains(t));
        if tokens_of(items).contains(t) {
            let k = choose|k: int| 0 <= k < items.len() && tokens_of(items)[k] == t;
            law_tokens_tell_runtimes_apart(items[k], kind);
        }
        if tokens.contains(t) {
            let k = choose|k: int| 0 <= k < sorted.len() && tokens[k] == t;
            law_tokens_tell_runtimes_apart(sorted[k], kind);
        }
        if items.contains(kind) {
            let k = choose|k: int| 0 <= k < items.len() && items[k] == kind;
            assert(tokens_of(items)[k] == t);
        }
        if sorted.contains(kind) {
            let k = choose|k: int| 0 <= k < sorted.len() && sorted[k] == kind;
            assert(tokens[k] == t);
        }
    }
}

/// The canonical effects are exactly the given ones, each once and in the order of
/// their tokens.
pub proof fn law_canonical_effects_are_the_given_ones(items: Seq<EffectKind>)
    ensures
        forall|i: int, j: int|
            0 <= i < j < canonical(items).len() ==> text_before(
                effect_token(#[trigger] canonical(items)[i]),
                effect_token(#[trigger] canonical(items)[j]),
            ),
        forall|kind: EffectKind|
            #![trigger canonical(items).contains(kind)]
            canonical(items).contains(kind) <==> items.contains(kind),
        forall|kind: EffectKind|
            #![trigger tokens_of(canonical(items)).contains(effect_token(kind))]
            tokens_of(canonical(items)).contains(effect_token(kind)) <==> items.contains(kind),
{
    let sorted = canonical(items);
    let tokens = tokens_of(sorted);
    law_canonical_is_ascending_and_complete(items);
    assert forall|i: int, j: int| 0 <= i < j < sorted.len() implies text_before(
        effect_token(#[trigger] sorted[i]),
        effect_token(#[trigger] sorted[j]),
    ) by {
        assert(text_before(tokens[i], tokens[j]));
    }
    assert forall|kind: EffectKind|
        (sorted.contains(kind) <==> items.contains(kind)) && (tokens.contains(effect_token(kind))
            <==> items.contains(kind)) by {
        let t = effect_token(kind);
        assert(tokens.contains(t) <==> tokens_of(items).contains(t));
        if tokens_of(items).contains(t) {
            let k = choose|k: int| 0 <= k < items.len() && tokens_of(items)[k] == t;
            law_tokens_tell_effects_apart(items[k], kind);
        }
        if tokens.contains(t) {
            let k = choose|k: int| 0 <= k < sorted.len() && tokens[k] == t;
            law_tokens_tell_effects_apart(sorted[k], kind);
        }
        if items.contains(kind) {
            let k = choose|k: int| 0 <= k < items.len() && items[k] == kind;
            assert(tokens_of(items)[k] == t);
        }
        if sorted.contains(kind) {
            let k = choose|k: int| 0 <= k < sorted.len() && sorted[k] == kind;
            assert(tokens[k] == t);
        }
    }
}

/// Runtimes and effects are written under their names, in lower case with an
/// underscore between words.
pub proof fn law_tokens_are_the_names()
    ensures
        runtime_token(RuntimeKind::Wasm) == "wasm"@,
        runtime_token(RuntimeKind::Mcp) == "mcp"@,
        runtime_token(RuntimeKind::Script) == "script"@,
        runtime_token(RuntimeKind::FirstParty) == "first_party"@,
        runtime_token(RuntimeKind::System) == "system"@,
        effect_token(EffectKind::ReadFilesystem) == "read_filesystem"@,
        effect_token(EffectKind::WriteFilesystem) == "write_filesystem"@,
        effect_token(EffectKind::DeleteFilesystem) == "delete_filesystem"@,
        effect_token(EffectKind::Network) == "network"@,
        effect_token(EffectKind::UseSecret) == "use_secret"@,
        effect_token(EffectKind::ExecuteCode) == "execute_code"@,
        effect_token(EffectKind::SpawnProcess) == "spawn_process"@,
        effect_token(EffectKind::DispatchCapability) == "dispatch_capability"@,
        effect_token(EffectKind::ModifyExtension) == "modify_extension"@,
        effect_token(EffectKind::ModifyApproval) == "modify_approval"@,
        effect_token(EffectKind::ModifyBudget) == "modify_budget"@,
        effect_token(EffectKind::ExternalWrite) == "external_write"@,
        effect_token(EffectKind::Financial) == "financial"@,
{
}

} // verus!
