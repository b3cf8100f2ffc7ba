//! Rendering of variable and secret references in configuration text.
//!
//! Each text is rendered in two passes, first with the variables, then with
//! the secrets. The replacements of each pass are collected: those of the
//! secrets are what a remote agent needs to scrub its output, those of the
//! variables only serve the record of what was rendered.

use std::collections::HashMap;
use vstd::prelude::*;
use vstd::string::StringExecFns;
use crate::entities::{
    Repo, RepoConfigView, RepoView, Stack, StackConfigView, StackView, SystemCommandView,
};
use crate::text::{join, spec_join};
use crate::update::{Log, LogView};

verus! {

/// `svi::Error`: why `svi::interpolate_variables` refused a text. Nothing is
/// known of what it holds; it is only handed on to be put into words.
#[verifier::external_type_specification]
#[verifier::external_body]
pub struct ExRenderFailure(svi::Error);

/// What `svi::interpolate_variables` returns for `input` and `variables`,
/// with double square brackets as the reference syntax and references to
/// unknown names left in place: the rendered text and the set of
/// replacements made, each a pair of the value put in and the name it stood
/// for; `None` where the text is refused.
pub uninterp spec fn svi_outcome(input: Seq<char>, variables: Map<Seq<char>, Seq<char>>) -> Option<
    (Seq<char>, Set<(Seq<char>, Seq<char>)>),
>;

/// Calls `svi::interpolate_variables`. The rendered text and the set of
/// replacements are those that [`svi_outcome`] names; the order in which the
/// replacements are listed is not fixed. Each replacement that is listed
/// pairs a value with a name under which `variables` holds that value.
#[verifier::external_body]
fn render(input: &str, variables: &HashMap<String, String>) -> (res: Result<
    (String, Vec<(String, String)>),
    svi::Error,
>)
    ensures
        match res {
            Ok(out) => {
                &&& svi_outcome(input@, variables.deep_view()) == Some(
                    (out.0@, out.1.deep_view().to_set()),
                )
                &&& from_mapping(out.1.deep_view(), variables.deep_view())
            },
            Err(_) => svi_outcome(input@, variables.deep_view()) is None,
        },
{
    svi::interpolate_variables(input, variables, svi::Interpolator::DoubleBrackets, false)
}

/// The text of `svi::Error`'s `Display`. Nothing is claimed of it.
#[verifier::external_body]
fn describe(failure: &svi::Error) -> (text: String) {
    failure.to_string()
}

/// One replacement: the value that was put in and the name it stood for.
#[derive(Debug, PartialEq, Eq)]
pub struct Replacer {
    pub value: String,
    pub name: String,
}

/// A replacement as a pair: the value, then the name.
pub type ReplacerView = (Seq<char>, Seq<char>);

impl DeepView for Replacer {
    type V = ReplacerView;

    open spec fn deep_view(&self) -> ReplacerView {
        (self.value@, self.name@)
    }
}

impl View for Replacer {
    type V = ReplacerView;

    open spec fn view(&self) -> ReplacerView {
        self.deep_view()
    }
}

impl Clone for Replacer {
    fn clone(&self) -> (res: Self)
        ensures
            res@ == self@,
    {
        Replacer { value: self.value.clone(), name: self.name.clone() }
    }
}

/// Every replacement of `list` pairs a value with a name under which
/// `mapping` holds that value.
pub open spec fn from_mapping(list: Seq<ReplacerView>, mapping: Map<Seq<char>, Seq<char>>) -> bool {
    forall|i: int|
        0 <= i < list.len() ==> mapping.contains_pair((#[trigger] list[i]).1, list[i].0)
}

/// A text that could not be rendered.
#[derive(Debug, PartialEq, Eq)]
pub struct InterpolationError {
    /// Why the text was refused, in the words of the rendering engine.
    pub message: String,
}

/// A text after both passes, with the replacements of each pass.
pub struct Rendered {
    pub text: Seq<char>,
    pub variables: Set<ReplacerView>,
    pub secrets: Set<ReplacerView>,
}

/// The rendering of `target`: the variables are put in first (where there
/// are any), then the secrets. An empty text stays empty and is never
/// refused. `None` where either pass refuses the text.
pub open spec fn spec_render(
    target: Seq<char>,
    variables: Option<Map<Seq<char>, Seq<char>>>,
    secrets: Map<Seq<char>, Seq<char>>,
) -> Option<Rendered> {
    if target.len() == 0 {
        Some(Rendered { text: target, variables: Set::empty(), secrets: Set::empty() })
    } else {
        let first = match variables {
            Some(v) => svi_outcome(target, v),
            None => Some((target, Set::<ReplacerView>::empty())),
        };
        match first {
            None => None,
            Some(with_variables) => match svi_outcome(with_variables.0, secrets) {
                None => None,
                Some(with_secrets) => Some(
                    Rendered {
                        text: with_secrets.0,
                        variables: with_variables.1,
                        secrets: with_secrets.1,
                    },
                ),
            },
        }
    }
}

/// Every text of `texts` can be rendered.
pub open spec fn all_render(
    texts: Seq<Seq<char>>,
    variables: Option<Map<Seq<char>, Seq<char>>>,
    secrets: Map<Seq<char>, Seq<char>>,
) -> bool {
    forall|i: int| 0 <= i < texts.len() ==> spec_render(#[trigger] texts[i], variables, secrets) is Some
}

/// The texts of `texts`, each rendered.
pub open spec fn rendered_texts(
    texts: Seq<Seq<char>>,
    variables: Option<Map<Seq<char>, Seq<char>>>,
    secrets: Map<Seq<char>, Seq<char>>,
) -> Seq<Seq<char>> {
    Seq::new(texts.len(), |i: int| spec_render(texts[i], variables, secrets)->0.text)
}

/// The variable replacements made in any of the first `end` texts.
pub open spec fn variables_used(
    texts: Seq<Seq<char>>,
    variables: Option<Map<Seq<char>, Seq<char>>>,
    secrets: Map<Seq<char>, Seq<char>>,
    end: int,
) -> Set<ReplacerView> {
    Set::new(
        |r: ReplacerView|
            exists|i: int|
                0 <= i < end && i < texts.len() && (#[trigger] spec_render(
                    texts[i],
                    variables,
                    secrets,
                ))->0.variables.contains(r),
    )
}

/// The secret replacements made in any of the first `end` texts.
pub open spec fn secrets_used(
    texts: Seq<Seq<char>>,
    variables: Option<Map<Seq<char>, Seq<char>>>,
    secrets: Map<Seq<char>, Seq<char>>,
    end: int,
) -> Set<ReplacerView> {
    Set::new(
        |r: ReplacerView|
            exists|i: int|
                0 <= i < end && i < texts.len() && (#[trigger] spec_render(
                    texts[i],
                    variables,
                    secrets,
                ))->0.secrets.contains(r),
    )
}

/// `after` is `before` with the members of `added` that it lacked appended,
/// each once, in some order.
pub open spec fn merged(
    before: Seq<ReplacerView>,
    added: Set<ReplacerView>,
    after: Seq<ReplacerView>,
) -> bool {
    &&& before.len() <= after.len()
    &&& forall|i: int| 0 <= i < before.len() ==> #[trigger] after[i] == before[i]
    &&& forall|i: int|
        before.len() <= i < after.len() ==> added.contains(#[trigger] after[i])
            && !before.contains(after[i])
    &&& forall|i: int, j: int|
        before.len() <= i < j < after.len() ==> #[trigger] after[i] != #[trigger] after[j]
    &&& forall|r: ReplacerView| #[trigger] added.contains(r) ==> after.contains(r)
}

/// What rendering `texts` does to an interpolator: its variables and secrets
/// stay, and the replacements made in any of the texts are merged into its
/// lists.
pub open spec fn interpolated(
    before: InterpolatorView,
    texts: Seq<Seq<char>>,
    after: InterpolatorView,
) -> bool {
    &&& after.variables == before.variables
    &&& after.secrets == before.secrets
    &&& merged(
        before.variable_replacers,
        variables_used(texts, before.variables, before.secrets, texts.len() as int),
        after.variable_replacers,
    )
    &&& merged(
        before.secret_replacers,
        secrets_used(texts, before.variables, before.secrets, texts.len() as int),
        after.secret_replacers,
    )
}

/// The texts of a stack's configuration that are rendered, in the order in
/// which they are rendered.
pub open spec fn stack_texts(config: StackConfigView) -> Seq<Seq<char>> {
    seq![
        config.file_contents,
        config.environment,
        config.pre_deploy.command,
        config.post_deploy.command,
    ] + config.extra_args + config.build_extra_args
}

/// The configuration with its rendered texts replaced by `texts`, which are
/// in the order of [`stack_texts`].
pub open spec fn with_stack_texts(config: StackConfigView, texts: Seq<Seq<char>>) -> StackConfigView {
    let args = config.extra_args.len() as int;
    StackConfigView {
        file_contents: texts[0],
        environment: texts[1],
        pre_deploy: SystemCommandView { command: texts[2], ..config.pre_deploy },
        post_deploy: SystemCommandView { command: texts[3], ..config.post_deploy },
        extra_args: texts.subrange(4, 4 + args),
        build_extra_args: texts.subrange(4 + args, texts.len() as int),
        ..config
    }
}

/// The texts of a repo's configuration that are rendered, in the order in
/// which they are rendered.
pub open spec fn repo_texts(config: RepoConfigView) -> Seq<Seq<char>> {
    seq![config.environment, config.on_clone.command, config.on_pull.command]
}

/// The configuration with its rendered texts replaced by `texts`, which are
/// in the order of [`repo_texts`].
pub open spec fn with_repo_texts(config: RepoConfigView, texts: Seq<Seq<char>>) -> RepoConfigView {
    RepoConfigView {
        environment: texts[0],
        on_clone: SystemCommandView { command: texts[1], ..config.on_clone },
        on_pull: SystemCommandView { command: texts[2], ..config.on_pull },
        ..config
    }
}

/// One line for each variable replacement: the name, then the value.
pub open spec fn variable_lines(replacers: Seq<ReplacerView>) -> Seq<Seq<char>> {
    Seq::new(replacers.len(), |i: int| replacers[i].1 + " => "@ + replacers[i].0)
}

/// One line for each secret replacement: the name alone, never the value.
pub open spec fn secret_lines(replacers: Seq<ReplacerView>) -> Seq<Seq<char>> {
    Seq::new(replacers.len(), |i: int| "replaced: "@ + replacers[i].1)
}

/// The log entries that tell what was rendered: one for the variables and
/// one for the secrets, each only where replacements were made.
pub open spec fn interpolation_logs(
    variable_replacers: Seq<ReplacerView>,
    secret_replacers: Seq<ReplacerView>,
    now: i64,
) -> Seq<LogView> {
    let variables = if variable_replacers.len() > 0 {
        seq![
            LogView::simple(
                "Interpolate Variables"@,
                spec_join(variable_lines(variable_replacers), "\n"@),
                now,
            ),
        ]
    } else {
        Seq::empty()
    };
    let secrets = if secret_replacers.len() > 0 {
        seq![
            LogView::simple(
                "Interpolate Secrets"@,
                spec_join(secret_lines(secret_replacers), "\n"@),
                now,
            ),
        ]
    } else {
        Seq::empty()
    };
    variables + secrets
}

/// Merging twice is merging the union.
pub proof fn lemma_merged_twice(
    a: Seq<ReplacerView>,
    first: Set<ReplacerView>,
    b: Seq<ReplacerView>,
    second: Set<ReplacerView>,
    c: Seq<ReplacerView>,
)
    requires
        merged(a, first, b),
        merged(b, second, c),
    ensures
        merged(a, first.union(second), c),
{
    assert forall|i: int| a.len() <= i < c.len() implies first.union(second).contains(
        #[trigger] c[i],
    ) && !a.contains(c[i]) by {
        if i < b.len() {
            assert(c[i] == b[i]);
        } else {
            if a.contains(c[i]) {
                let k = choose|k: int| 0 <= k < a.len() && a[k] == c[i];
                assert(b[k] == c[i]);
            }
        }
    }
    assert forall|i: int, j: int| a.len() <= i < j < c.len() implies #[trigger] c[i]
        != #[trigger] c[j] by {
        if j < b.len() {
            assert(c[i] == b[i] && c[j] == b[j]);
        } else if i < b.len() {
            assert(c[i] == b[i]);
            assert(b.contains(b[i]));
        }
    }
    assert forall|r: ReplacerView| #[trigger] first.union(second).contains(r) implies c.contains(
        r,
    ) by {
        if first.contains(r) {
            let k = choose|k: int| 0 <= k < b.len() && b[k] == r;
            assert(c[k] == r);
        }
    }
}

/// Renders texts and keeps the replacements made so far.
pub struct Interpolator<'a> {
    variables: Option<&'a HashMap<String, String>>,
    secrets: &'a HashMap<String, String>,
    variable_replacers: Vec<Replacer>,
    /// The secret replacements made so far, each once.
    pub secret_replacers: Vec<Replacer>,
}

/// Mathematical view of [`Interpolator`].
pub struct InterpolatorView {
    pub variables: Option<Map<Seq<char>, Seq<char>>>,
    pub secrets: Map<Seq<char>, Seq<char>>,
    pub variable_replacers: Seq<ReplacerView>,
    pub secret_replacers: Seq<ReplacerView>,
}

impl InterpolatorView {
    /// Every replacement that is kept was made from the mapping that it is
    /// kept for: the secret replacements from the secrets, the variable
    /// replacements from the variables.
    pub open spec fn sound(self) -> bool {
        &&& from_mapping(self.secret_replacers, self.secrets)
        &&& match self.variables {
            Some(variables) => from_mapping(self.variable_replacers, variables),
            None => true,
        }
    }
}

impl<'a> View for Interpolator<'a> {
    type V = InterpolatorView;

    closed spec fn view(&self) -> InterpolatorView {
        InterpolatorView {
            variables: self.variables.deep_view(),
            secrets: self.secrets.deep_view(),
            variable_replacers: self.variable_replacers.deep_view(),
            secret_replacers: self.secret_replacers.deep_view(),
        }
    }
}

/// Tells whether `list` holds the replacement of `value` for `name`.
fn holds(list: &Vec<Replacer>, value: &String, name: &String) -> (res: bool)
    ensures
        res == list.deep_view().contains((value@, name@)),
{
    let mut i: usize = 0;
    while i < list.len()
        invariant
            i <= list.len(),
            forall|j: int| 0 <= j < i ==> #[trigger] list.deep_view()[j] != (value@, name@),
        decreases list.len() - i,
    {
        if list[i].value == *value && list[i].name == *name {
            assert(list.deep_view()[i as int] == (value@, name@));
            return true;
        }
        i += 1;
    }
    false
}

/// Appends to `list` the replacements of `found` that it lacks.
fn merge(list: &mut Vec<Replacer>, found: &Vec<(String, String)>)
    ensures
        merged(old(list).deep_view(), found.deep_view().to_set(), final(list).deep_view()),
{
    let ghost before = list.deep_view();
    let ghost all = found.deep_view();
    let mut i: usize = 0;
    while i < found.len()
        invariant
            i <= found.len(),
            all == found.deep_view(),
            before.len() <= list.deep_view().len(),
            forall|k: int| 0 <= k < before.len() ==> #[trigger] list.deep_view()[k] == before[k],
            forall|k: int|
                before.len() <= k < list.deep_view().len() ==> all.contains(
                    #[trigger] list.deep_view()[k],
                ) && !before.contains(list.deep_view()[k]),
            forall|k: int, m: int|
                before.len() <= k < m < list.deep_view().len() ==> #[trigger] list.deep_view()[k]
                    != #[trigger] list.deep_view()[m],
            forall|k: int| 0 <= k < i ==> list.deep_view().contains(#[trigger] all[k]),
        decreases found.len() - i,
    {
        let ghost current = list.deep_view();
        let ghost item = all[i as int];
        assert(item == (found[i as int].0@, found[i as int].1@));
        if !holds(list, &found[i].0, &found[i].1) {
            let replacer = Replacer { value: found[i].0.clone(), name: found[i].1.clone() };
            list.push(replacer);
            proof {
                let grown = list.deep_view();
                assert(grown =~= current.push(item));
                assert(grown[current.len() as int] == item);
                assert(!before.contains(item)) by {
                    if before.contains(item) {
                        let k = choose|k: int| 0 <= k < before.len() && before[k] == item;
                        assert(current[k] == item);
                    }
                }
                assert forall|k: int| 0 <= k < i + 1 implies grown.contains(#[trigger] all[k]) by {
                    if k < i {
                        let w = choose|w: int| 0 <= w < current.len() && current[w] == all[k];
                        assert(grown[w] == all[k]);
                    }
                }
            }
        }
        i += 1;
    }
    proof {
        let after = list.deep_view();
        assert forall|r: ReplacerView| #[trigger] all.to_set().contains(r) implies after.contains(
            r,
        ) by {
            let k = choose|k: int| 0 <= k < all.len() && all[k] == r;
            assert(after.contains(all[k]));
        }
    }
}

impl<'a> Interpolator<'a> {
    /// An interpolator that has rendered nothing yet.
    pub fn new(
        variables: Option<&'a HashMap<String, String>>,
        secrets: &'a HashMap<String, String>,
    ) -> (interpolator: Interpolator<'a>)
        ensures
            interpolator@ == (InterpolatorView {
                variables: variables.deep_view(),
                secrets: secrets.deep_view(),
                variable_replacers: Seq::empty(),
                secret_replacers: Seq::empty(),
            }),
    {
        let interpolator = Interpolator {
            variables,
            secrets,
            variable_replacers: Vec::new(),
            secret_replacers: Vec::new(),
        };
        assert(interpolator.variable_replacers.deep_view() =~= Seq::empty());
        assert(interpolator.secret_replacers.deep_view() =~= Seq::empty());
        interpolator
    }

    /// Renders `target` in place and keeps the replacements made. A text
    /// that is refused stays as it was, and so does the interpolator.
    pub fn interpolate_string(&mut self, target: &mut String) -> (res: Result<
        (),
        InterpolationError,
    >)
        ensures
            final(self)@.variables == old(self)@.variables,
            final(self)@.secrets == old(self)@.secrets,
            old(self)@.sound() ==> final(self)@.sound(),
            match spec_render(old(target)@, old(self)@.variables, old(self)@.secrets) {
                Some(rendered) => {
                    &&& res is Ok
                    &&& final(target)@ == rendered.text
                    &&& merged(
                        old(self)@.variable_replacers,
                        rendered.variables,
                        final(self)@.variable_replacers,
                    )
                    &&& merged(
                        old(self)@.secret_replacers,
                        rendered.secrets,
                        final(self)@.secret_replacers,
                    )
                },
                None => {
                    &&& res is Err
                    &&& final(target)@ == old(target)@
                    &&& final(self)@ == old(self)@
                },
            },
    {
        if target.as_str().is_empty() {
            return Ok(());
        }
        let no_variables: Vec<(String, String)> = Vec::new();
        assert(no_variables.deep_view().to_set() =~= Set::<ReplacerView>::empty());
        let (with_variables, variables_found) = match self.variables {
            Some(variables) => match render(target.as_str(), variables) {
                Ok(out) => out,
                Err(failure) => {
                    return Err(InterpolationError { message: describe(&failure) });
                },
            },
            None => (target.clone(), no_variables),
        };
        let (with_secrets, secrets_found) = match render(with_variables.as_str(), self.secrets) {
            Ok(out) => out,
            Err(failure) => {
                return Err(InterpolationError { message: describe(&failure) });
            },
        };
        merge(&mut self.variable_replacers, &variables_found);
        merge(&mut self.secret_replacers, &secrets_found);
        proof {
            let found = secrets_found.deep_view();
            let kept = self@.secret_replacers;
            assert forall|i: int|
                old(self)@.secret_replacers.len() <= i < kept.len() implies self@.secrets.contains_pair(
                (#[trigger] kept[i]).1,
                kept[i].0,
            ) by {
                let k = choose|k: int| 0 <= k < found.len() && found[k] == kept[i];
                assert(self@.secrets.contains_pair(found[k].1, found[k].0));
            }
            if self@.variables is Some {
                let found = variables_found.deep_view();
                let kept = self@.variable_replacers;
                assert forall|i: int|
                    old(self)@.variable_replacers.len() <= i < kept.len() implies self@.variables->0.contains_pair(
                    (#[trigger] kept[i]).1,
                    kept[i].0,
                ) by {
                    let k = choose|k: int| 0 <= k < found.len() && found[k] == kept[i];
                    assert(self@.variables->0.contains_pair(found[k].1, found[k].0));
                }
            }
        }
        *target = with_secrets;
        Ok(())
    }

    /// Renders every text of `texts` in place, in their order, and keeps the
    /// replacements made. Where one of them is refused, all of them stay as
    /// they were, and so does the interpolator.
    pub fn interpolate_all(&mut self, texts: &mut Vec<String>) -> (res: Result<
        (),
        InterpolationError,
    >)
        ensures
            old(self)@.sound() ==> final(self)@.sound(),
            if all_render(old(texts).deep_view(), old(self)@.variables, old(self)@.secrets) {
                &&& res is Ok
                &&& final(texts).deep_view() == rendered_texts(
                    old(texts).deep_view(),
                    old(self)@.variables,
                    old(self)@.secrets,
                )
                &&& interpolated(old(self)@, old(texts).deep_view(), final(self)@)
            } else {
                &&& res is Err
                &&& final(texts).deep_view() == old(texts).deep_view()
                &&& final(self)@ == old(self)@
            },
    {
        let variables_kept = self.variable_replacers.len();
        let secrets_kept = self.secret_replacers.len();
        let ghost start = self@;
        let ghost source = texts.deep_view();
        let mut rendered: Vec<String> = Vec::new();
        let mut i: usize = 0;
        assert(variables_used(source, start.variables, start.secrets, 0) =~= Set::empty());
        assert(secrets_used(source, start.variables, start.secrets, 0) =~= Set::empty());
        while i < texts.len()
            invariant
                i <= texts.len(),
                source == texts.deep_view(),
                start == old(self)@,
                variables_kept == start.variable_replacers.len(),
                secrets_kept == start.secret_replacers.len(),
                rendered.len() == i,
                self@.variables == start.variables,
                self@.secrets == start.secrets,
                start.sound() ==> self@.sound(),
                forall|k: int|
                    0 <= k < i ==> spec_render(
                        #[trigger] source[k],
                        start.variables,
                        start.secrets,
                    ) is Some,
                forall|k: int|
                    0 <= k < i ==> (#[trigger] rendered[k])@ == spec_render(
                        source[k],
                        start.variables,
                        start.secrets,
                    )->0.text,
                merged(
                    start.variable_replacers,
                    variables_used(source, start.variables, start.secrets, i as int),
                    self@.variable_replacers,
                ),
                merged(
                    start.secret_replacers,
                    secrets_used(source, start.variables, start.secrets, i as int),
                    self@.secret_replacers,
                ),
            decreases texts.len() - i,
        {
            let ghost middle = self@;
            let mut text = texts[i].clone();
            assert(text@ == source[i as int]);
            match self.interpolate_string(&mut text) {
                Ok(()) => {
                    rendered.push(text);
                    proof {
                        let one = spec_render(source[i as int], start.variables, start.secrets)->0;
                        lemma_merged_twice(
                            start.variable_replacers,
                            variables_used(source, start.variables, start.secrets, i as int),
                            middle.variable_replacers,
                            one.variables,
                            self@.variable_replacers,
                        );
                        lemma_merged_twice(
                            start.secret_replacers,
                            secrets_used(source, start.variables, start.secrets, i as int),
                            middle.secret_replacers,
                            one.secrets,
                            self@.secret_replacers,
                        );
                        assert(variables_used(source, start.variables, start.secrets, i + 1)
                            =~= variables_used(
                            source,
                            start.variables,
                            start.secrets,
                            i as int,
                        ).union(one.variables));
                        assert(secrets_used(source, start.variables, start.secrets, i + 1)
                            =~= secrets_used(source, start.variables, start.secrets, i as int).union(
                            one.secrets,
                        ));
                    }
                },
                Err(failure) => {
                    let ghost variables_grown = self.variable_replacers;
                    let ghost secrets_grown = self.secret_replacers;
                    self.variable_replacers.truncate(variables_kept);
                    self.secret_replacers.truncate(secrets_kept);
                    proof {
                        assert forall|k: int| 0 <= k < variables_kept implies (
                        #[trigger] self.variable_replacers.deep_view()[k])
                            == start.variable_replacers[k] by {
                            assert(self.variable_replacers@[k] == variables_grown@[k]);
                            assert(variables_grown.deep_view()[k] == start.variable_replacers[k]);
                        }
                        assert forall|k: int| 0 <= k < secrets_kept implies (
                        #[trigger] self.secret_replacers.deep_view()[k])
                            == start.secret_replacers[k] by {
                            assert(self.secret_replacers@[k] == secrets_grown@[k]);
                            assert(secrets_grown.deep_view()[k] == start.secret_replacers[k]);
                        }
                        assert(self.variable_replacers.deep_view()
                            =~= start.variable_replacers);
                        assert(self.secret_replacers.deep_view() =~= start.secret_replacers);
                    }
                    return Err(failure);
                },
            }
            i += 1;
        }
        proof {
            assert(rendered.deep_view() =~= rendered_texts(
                source,
                start.variables,
                start.secrets,
            ));
        }
        *texts = rendered;
        Ok(())
    }

    /// Renders the texts of the stack's configuration in place, unless the
    /// stack opts out. Where a text is refused, the stack stays as it was,
    /// and so does the interpolator.
    pub fn interpolate_stack(&mut self, stack: &mut Stack) -> (res: Result<(), InterpolationError>)
        ensures
            old(self)@.sound() ==> final(self)@.sound(),
            ({
                let texts = stack_texts(old(stack)@.config);
                if old(stack)@.config.skip_secret_interp {
                    &&& res is Ok
                    &&& final(stack)@ == old(stack)@
                    &&& final(self)@ == old(self)@
                } else if all_render(texts, old(self)@.variables, old(self)@.secrets) {
                    &&& res is Ok
                    &&& final(stack)@ == (StackView {
                        config: with_stack_texts(
                            old(stack)@.config,
                            rendered_texts(texts, old(self)@.variables, old(self)@.secrets),
                        ),
                        ..old(stack)@
                    })
                    &&& interpolated(old(self)@, texts, final(self)@)
                } else {
                    &&& res is Err
                    &&& final(stack)@ == old(stack)@
                    &&& final(self)@ == old(self)@
                }
            }),
    {
        if stack.config.skip_secret_interp {
            return Ok(());
        }
        let args = stack.config.extra_args.len();
        let build_args = stack.config.build_extra_args.len();
        let mut texts: Vec<String> = Vec::new();
        texts.push(stack.config.file_contents.clone());
        texts.push(stack.config.environment.clone());
        texts.push(stack.config.pre_deploy.command.clone());
        texts.push(stack.config.post_deploy.command.clone());
        append_copies(&mut texts, &stack.config.extra_args);
        append_copies(&mut texts, &stack.config.build_extra_args);
        assert(texts.deep_view() =~= stack_texts(old(stack)@.config));
        assert(texts.len() == 4 + args + build_args);
        match self.interpolate_all(&mut texts) {
            Ok(()) => {},
            Err(failure) => {
                return Err(failure);
            },
        }
        assert(texts.deep_view().len() == 4 + args + build_args);
        let extra_args = copy_range(&texts, 4, 4 + args);
        let build_extra_args = copy_range(&texts, 4 + args, 4 + args + build_args);
        stack.config.file_contents = texts[0].clone();
        stack.config.environment = texts[1].clone();
        stack.config.pre_deploy.command = texts[2].clone();
        stack.config.post_deploy.command = texts[3].clone();
        stack.config.extra_args = extra_args;
        stack.config.build_extra_args = build_extra_args;
        Ok(())
    }

    /// Renders the texts of the repo's configuration in place, unless the
    /// repo opts out. Where a text is refused, the repo stays as it was, and
    /// so does the interpolator.
    pub fn interpolate_repo(&mut self, repo: &mut Repo) -> (res: Result<(), InterpolationError>)
        ensures
            old(self)@.sound() ==> final(self)@.sound(),
            ({
                let texts = repo_texts(old(repo)@.config);
                if old(repo)@.config.skip_secret_interp {
                    &&& res is Ok
                    &&& final(repo)@ == old(repo)@
                    &&& final(self)@ == old(self)@
                } else if all_render(texts, old(self)@.variables, old(self)@.secrets) {
                    &&& res is Ok
                    &&& final(repo)@ == (RepoView {
                        config: with_repo_texts(
                            old(repo)@.config,
                            rendered_texts(texts, old(self)@.variables, old(self)@.secrets),
                        ),
                        ..old(repo)@
                    })
                    &&& interpolated(old(self)@, texts, final(self)@)
                } else {
                    &&& res is Err
                    &&& final(repo)@ == old(repo)@
                    &&& final(self)@ == old(self)@
                }
            }),
    {
        if repo.config.skip_secret_interp {
            return Ok(());
        }
        let mut texts: Vec<String> = Vec::new();
        texts.push(repo.config.environment.clone());
        texts.push(repo.config.on_clone.command.clone());
        texts.push(repo.config.on_pull.command.clone());
        assert(texts.deep_view() =~= repo_texts(old(repo)@.config));
        match self.interpolate_all(&mut texts) {
            Ok(()) => {},
            Err(failure) => {
                return Err(failure);
            },
        }
        assert(texts.deep_view().len() == 3);
        repo.config.environment = texts[0].clone();
        repo.config.on_clone.command = texts[1].clone();
        repo.config.on_pull.command = texts[2].clone();
        Ok(())
    }

    /// Appends to `logs` the entries that tell what was rendered: the
    /// variables with their values, the secrets by name only.
    pub fn push_logs(&self, logs: &mut Vec<Log>, now: i64)
        ensures
            final(logs).deep_view() == old(logs).deep_view() + interpolation_logs(
                self@.variable_replacers,
                self@.secret_replacers,
                now,
            ),
    {
        if self.variable_replacers.len() > 0 {
            let mut lines: Vec<String> = Vec::new();
            let mut i: usize = 0;
            while i < self.variable_replacers.len()
                invariant
                    i <= self.variable_replacers.len(),
                    lines.deep_view() == variable_lines(self@.variable_replacers).take(i as int),
                decreases self.variable_replacers.len() - i,
            {
                let ghost listed = lines.deep_view();
                let mut line = self.variable_replacers[i].name.clone();
                line.append(" => ");
                line.append(self.variable_replacers[i].value.as_str());
                lines.push(line);
                proof {
                    let all = variable_lines(self@.variable_replacers);
                    assert(self@.variable_replacers[i as int] == self.variable_replacers[i as int]@);
                    assert(line@ == all[i as int]);
                    assert(lines.deep_view() =~= listed.push(line@));
                    assert(all.take(i + 1) =~= all.take(i as int).push(all[i as int]));
                }
                i += 1;
            }
            assert(lines.deep_view() =~= variable_lines(self@.variable_replacers));
            logs.push(Log::simple("Interpolate Variables", join(&lines, "\n"), now));
        }
        let ghost middle = logs.deep_view();
        if self.secret_replacers.len() > 0 {
            let mut lines: Vec<String> = Vec::new();
            let mut i: usize = 0;
            while i < self.secret_replacers.len()
                invariant
                    i <= self.secret_replacers.len(),
                    lines.deep_view() == secret_lines(self@.secret_replacers).take(i as int),
                decreases self.secret_replacers.len() - i,
            {
                let ghost listed = lines.deep_view();
                let mut line = String::from_str("replaced: ");
                line.append(self.secret_replacers[i].name.as_str());
                lines.push(line);
                proof {
                    let all = secret_lines(self@.secret_replacers);
                    assert(self@.secret_replacers[i as int] == self.secret_replacers[i as int]@);
                    assert(line@ == all[i as int]);
                    assert(lines.deep_view() =~= listed.push(line@));
                    assert(all.take(i + 1) =~= all.take(i as int).push(all[i as int]));
                }
                i += 1;
            }
            assert(lines.deep_view() =~= secret_lines(self@.secret_replacers));
            logs.push(Log::simple("Interpolate Secrets", join(&lines, "\n"), now));
        }
        assert(logs.deep_view() =~= old(logs).deep_view() + interpolation_logs(
            self@.variable_replacers,
            self@.secret_replacers,
            now,
        ));
    }

    /// The secret replacements made so far, each once.
    pub fn into_secret_replacers(self) -> (replacers: Vec<Replacer>)
        ensures
            replacers.deep_view() == self@.secret_replacers,
    {
        self.secret_replacers
    }
}

/// Appends a copy of each text of `more` to `texts`.
fn append_copies(texts: &mut Vec<String>, more: &Vec<String>)
    ensures
        final(texts).deep_view() == old(texts).deep_view() + more.deep_view(),
{
    let mut i: usize = 0;
    while i < more.len()
        invariant
            i <= more.len(),
            texts.deep_view() == old(texts).deep_view() + more.deep_view().take(i as int),
        decreases more.len() - i,
    {
        let ghost listed = texts.deep_view();
        let text = more[i].clone();
        texts.push(text);
        proof {
            let all = more.deep_view();
            assert(text@ == all[i as int]);
            assert(texts.deep_view() =~= listed.push(text@));
            assert(all.take(i + 1) =~= all.take(i as int).push(all[i as int]));
            assert(texts.deep_view() =~= old(texts).deep_view() + all.take(i + 1));
        }
        i += 1;
    }
    assert(more.deep_view().take(more.len() as int) =~= more.deep_view());
}

/// A copy of the texts from `from` up to `to`.
fn copy_range(texts: &Vec<String>, from: usize, to: usize) -> (res: Vec<String>)
    requires
        from <= to <= texts.len(),
    ensures
        res.deep_view() == texts.deep_view().subrange(from as int, to as int),
{
    let mut res: Vec<String> = Vec::new();
    let mut i: usize = from;
    while i < to
        invariant
            from <= i <= to <= texts.len(),
            res.deep_view() == texts.deep_view().subrange(from as int, i as int),
        decreases to - i,
    {
        let ghost listed = res.deep_view();
        let text = texts[i].clone();
        res.push(text);
        proof {
            let all = texts.deep_view();
            assert(text@ == all[i as int]);
            assert(res.deep_view() =~= listed.push(text@));
            assert(all.subrange(from as int, i + 1) =~= all.subrange(from as int, i as int).push(
                all[i as int],
            ));
        }
        i += 1;
    }
    res
}

} // verus!
