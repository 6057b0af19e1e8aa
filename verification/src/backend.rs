//! Which backend an orb talks to: by name, by environment variable, by build.

use crate::text::{
    all_ascii, ascii_lower, ascii_lower_char, blank, lowercase, reads, trim_end, trim_start,
    trimmed, white_space,
};
use vstd::prelude::*;

verus! {

/// The environment variable that names the backend.
pub const ORB_BACKEND_ENV_VAR_NAME: &'static str = "ORB_BACKEND";

/// A backend that an orb can talk to.
#[derive(Debug, Clone, Copy, PartialEq, Eq, Hash, Structural)]
pub enum Backend {
    Prod,
    Staging,
    Analysis,
    Local,
}

/// The kind of build that runs on an orb.
#[derive(Debug, Clone, Copy, PartialEq, Eq, Hash, Structural)]
pub enum BuildType {
    Prod,
    Staging,
    Analysis,
}

impl BuildType {
    /// A staging build, by its short name.
    #[allow(non_upper_case_globals)]
    pub const Stage: BuildType = BuildType::Staging;
}

/// Why an environment variable has no text.
#[derive(Debug, Clone, Copy, PartialEq, Eq, Structural)]
pub enum VarError {
    /// The variable is not set.
    NotPresent,
    /// The variable is set, and is not valid Unicode.
    NotUnicode,
}

/// Error from parsing a string into a [`Backend`].
#[derive(Debug, Clone, Copy, PartialEq, Eq, Structural)]
pub struct BackendParseErr;

/// Error from parsing the environment variable into a [`Backend`].
#[derive(Debug, Clone, Copy, PartialEq, Eq, Structural)]
pub enum BackendFromEnvError {
    NotSet,
    Invalid(BackendParseErr),
}

/// Why no backend can be chosen for a build.
#[derive(Debug, Clone, Copy, PartialEq, Eq, Structural)]
pub enum BackendChoiceError {
    /// The environment variable is set and names no backend.
    Unparsable(BackendFromEnvError),
    /// A staging build was told to talk to the prod backend.
    ProdOnStaging,
    /// An analysis build was told to talk to the prod backend.
    ProdOnAnalysis,
}

/// The backend that a word in lower case names.
pub open spec fn named(word: Seq<char>) -> Result<Backend, BackendParseErr> {
    if word == "prod"@ || word == "production"@ {
        Ok(Backend::Prod)
    } else if word == "stage"@ || word == "staging"@ || word == "dev"@ || word == "development"@ {
        Ok(Backend::Staging)
    } else if word == "analysis"@ || word == "analysis.ml"@ || word == "analysis-ml"@ {
        Ok(Backend::Analysis)
    } else if word == "local"@ || word == "localhost"@ || word == "127.0.0.1"@ {
        Ok(Backend::Local)
    } else {
        Err(BackendParseErr)
    }
}

/// The backend that `s` names, whatever its letter case and the space around it.
pub open spec fn parsed(s: Seq<char>) -> Result<Backend, BackendParseErr> {
    named(lowercase(trimmed(s)))
}

/// The backend that the ASCII text `s` names.
pub open spec fn parsed_ascii(s: Seq<char>) -> Result<Backend, BackendParseErr> {
    named(ascii_lower(trimmed(s)))
}

/// The backend that goes with a build.
pub open spec fn own_backend(build_type: BuildType) -> Backend {
    match build_type {
        BuildType::Prod => Backend::Prod,
        BuildType::Staging => Backend::Staging,
        BuildType::Analysis => Backend::Analysis,
    }
}

/// The backend for a build, given what the environment asks for.
pub open spec fn choice(
    env: Result<Backend, BackendFromEnvError>,
    build_type: BuildType,
) -> Result<Backend, BackendChoiceError> {
    match env {
        Err(BackendFromEnvError::NotSet) => Ok(own_backend(build_type)),
        Err(e) => Err(BackendChoiceError::Unparsable(e)),
        Ok(b) => if b == Backend::Prod && build_type == BuildType::Staging {
            Err(BackendChoiceError::ProdOnStaging)
        } else if b == Backend::Prod && build_type == BuildType::Analysis {
            Err(BackendChoiceError::ProdOnAnalysis)
        } else {
            Ok(b)
        },
    }
}

/// What the environment asks for, by the text of the variable.
pub open spec fn env_backend(var: Result<Seq<char>, VarError>) -> Result<
    Backend,
    BackendFromEnvError,
> {
    match var {
        Err(VarError::NotPresent) => Err(BackendFromEnvError::NotSet),
        Err(VarError::NotUnicode) => Err(BackendFromEnvError::Invalid(BackendParseErr)),
        Ok(text) => match parsed(text) {
            Ok(b) => Ok(b),
            Err(e) => Err(BackendFromEnvError::Invalid(e)),
        },
    }
}

/// The characters of a variable's text.
pub open spec fn var_text(var: Result<String, VarError>) -> Result<Seq<char>, VarError> {
    match var {
        Ok(text) => Ok(text@),
        Err(e) => Err(e),
    }
}

impl Backend {
    /// The backend that `s` names. Letter case and surrounding white space do not matter.
    pub fn from_str(s: &str) -> (r: Result<Backend, BackendParseErr>)
        ensures
            r == parsed(s@),
            r == parsed(ascii_lower(s@)),
            r == parsed(lowercase(trimmed(s@))),
            all_ascii(trimmed(s@)) ==> r == parsed_ascii(s@),
    {
        proof {
            lemma_trimmed_lower(s@);
            lemma_trimmed_twice(s@);
        }
        let word = s.trim().to_lowercase();
        Self::from_word(&word)
    }

    /// The backend that a trimmed word in lower case names.
    pub fn from_word(word: &String) -> (r: Result<Backend, BackendParseErr>)
        ensures
            r == named(word@),
    {
        if reads(word, "prod") || reads(word, "production") {
            Ok(Backend::Prod)
        } else if reads(word, "stage") || reads(word, "staging") || reads(word, "dev") || reads(
            word,
            "development",
        ) {
            Ok(Backend::Staging)
        } else if reads(word, "analysis") || reads(word, "analysis.ml") || reads(
            word,
            "analysis-ml",
        ) {
            Ok(Backend::Analysis)
        } else if reads(word, "local") || reads(word, "localhost") || reads(word, "127.0.0.1") {
            Ok(Backend::Local)
        } else {
            Err(BackendParseErr)
        }
    }

    /// The backend that the environment asks for; `var` is what was read from
    /// the variable [`ORB_BACKEND_ENV_VAR_NAME`].
    pub fn from_env(var: Result<String, VarError>) -> (r: Result<Backend, BackendFromEnvError>)
        ensures
            r == env_backend(var_text(var)),
            var matches Ok(text) ==> all_ascii(trimmed(text@)) ==> r == (match parsed_ascii(text@) {
                Ok(b) => Ok::<Backend, BackendFromEnvError>(b),
                Err(e) => Err(BackendFromEnvError::Invalid(e)),
            }),
    {
        match var {
            Err(VarError::NotPresent) => Err(BackendFromEnvError::NotSet),
            Err(VarError::NotUnicode) => Err(BackendFromEnvError::Invalid(BackendParseErr)),
            Ok(text) => match Backend::from_str(text.as_str()) {
                Ok(b) => Ok(b),
                Err(e) => Err(BackendFromEnvError::from(e)),
            },
        }
    }

    /// Chooses the backend from what the environment asks for, or from the
    /// build where the variable is not set.
    ///
    /// The variable must name a backend where it is set, and a staging or
    /// analysis build must not be told to talk to prod;
    /// [`Self::try_from_env_or_build_type`] tests for this.
    pub fn from_env_or_build_type(
        env: Result<Backend, BackendFromEnvError>,
        build_type: BuildType,
    ) -> (b: Backend)
        requires
            choice(env, build_type) is Ok,
        ensures
            choice(env, build_type) == Ok::<Backend, BackendChoiceError>(b),
            b == Backend::Prod ==> build_type == BuildType::Prod,
    {
        match env {
            Ok(b) => b,
            Err(_) => match build_type {
                BuildType::Prod => Backend::Prod,
                BuildType::Staging => Backend::Staging,
                BuildType::Analysis => Backend::Analysis,
            },
        }
    }

    /// Chooses the backend from what was read from the environment variable,
    /// or from the build where it is not set, and says why where there is no choice.
    pub fn try_from_env_or_build_type(
        var: Result<String, VarError>,
        build_type: BuildType,
    ) -> (r: Result<Backend, BackendChoiceError>)
        ensures
            r == choice(env_backend(var_text(var)), build_type),
            r == Ok::<Backend, BackendChoiceError>(Backend::Prod) ==> build_type == BuildType::Prod,
    {
        let env = Backend::from_env(var);
        match env {
            Err(e) => match e {
                BackendFromEnvError::NotSet => Ok(Backend::from_env_or_build_type(env, build_type)),
                BackendFromEnvError::Invalid(_) => Err(BackendChoiceError::Unparsable(e)),
            },
            Ok(b) => match (b, build_type) {
                (Backend::Prod, BuildType::Staging) => Err(BackendChoiceError::ProdOnStaging),
                (Backend::Prod, BuildType::Analysis) => Err(BackendChoiceError::ProdOnAnalysis),
                _ => Ok(Backend::from_env_or_build_type(env, build_type)),
            },
        }
    }
}

impl std::str::FromStr for Backend {
    type Err = BackendParseErr;

    fn from_str(s: &str) -> (r: Result<Self, Self::Err>)
        ensures
            r == parsed(s@),
            r == parsed(ascii_lower(s@)),
            r == parsed(lowercase(trimmed(s@))),
            all_ascii(trimmed(s@)) ==> r == parsed_ascii(s@),
    {
        Backend::from_str(s)
    }
}

impl BackendParseErr {
    /// The error in words.
    pub fn message(&self) -> (r: String)
        ensures
            r@ == "failed to parse `Backend` from str"@,
    {
        "failed to parse `Backend` from str".to_owned()
    }
}

impl BackendFromEnvError {
    /// The error in words.
    pub open spec fn words(self) -> Seq<char> {
        match self {
            BackendFromEnvError::NotSet => "env var "@ + ORB_BACKEND_ENV_VAR_NAME@
                + " was not set"@,
            BackendFromEnvError::Invalid(_) => "env var "@ + ORB_BACKEND_ENV_VAR_NAME@
                + " failed to parse"@,
        }
    }

    /// The error in words.
    pub fn message(&self) -> (r: String)
        ensures
            r@ == self.words(),
    {
        let subject = "env var ".to_owned().concat(ORB_BACKEND_ENV_VAR_NAME);
        match self {
            BackendFromEnvError::NotSet => subject.concat(" was not set"),
            BackendFromEnvError::Invalid(_) => subject.concat(" failed to parse"),
        }
    }

    /// The parse error behind this one, where there is one.
    pub fn source(&self) -> (r: Option<&BackendParseErr>)
        ensures
            r == (match *self {
                BackendFromEnvError::NotSet => None::<&BackendParseErr>,
                BackendFromEnvError::Invalid(e) => Some(&e),
            }),
    {
        match self {
            BackendFromEnvError::NotSet => None,
            BackendFromEnvError::Invalid(e) => Some(e),
        }
    }
}

impl From<BackendParseErr> for BackendFromEnvError {
    fn from(value: BackendParseErr) -> (r: Self) {
        Self::Invalid(value)
    }
}

impl vstd::std_specs::convert::FromSpecImpl<BackendParseErr> for BackendFromEnvError {
    open spec fn obeys_from_spec() -> bool {
        true
    }

    open spec fn from_spec(value: BackendParseErr) -> Self {
        Self::Invalid(value)
    }
}

impl BackendChoiceError {
    /// The error in words.
    pub open spec fn words(self) -> Seq<char> {
        match self {
            BackendChoiceError::Unparsable(e) => "could not parse backend from env var: "@
                + e.words(),
            BackendChoiceError::ProdOnStaging =>
                "tried to talk to prod backend but this is a staging build!"@,
            BackendChoiceError::ProdOnAnalysis =>
                "tried to talk to prod backend but this is an analysis build!"@,
        }
    }

    /// The error in words.
    pub fn message(&self) -> (r: String)
        ensures
            r@ == self.words(),
    {
        match self {
            BackendChoiceError::Unparsable(e) => {
                let reason = e.message();
                "could not parse backend from env var: ".to_owned().concat(reason.as_str())
            },
            BackendChoiceError::ProdOnStaging =>
                "tried to talk to prod backend but this is a staging build!".to_owned(),
            BackendChoiceError::ProdOnAnalysis =>
                "tried to talk to prod backend but this is an analysis build!".to_owned(),
        }
    }
}

proof fn lemma_lower_keeps_white_space(c: char)
    ensures
        white_space(ascii_lower_char(c)) == white_space(c),
{
}

proof fn lemma_trim_start_lower(s: Seq<char>)
    ensures
        trim_start(ascii_lower(s)) == ascii_lower(trim_start(s)),
    decreases s.len(),
{
    if s.len() > 0 {
        lemma_lower_keeps_white_space(s[0]);
        if white_space(s[0]) {
            assert(ascii_lower(s).drop_first() =~= ascii_lower(s.drop_first()));
            lemma_trim_start_lower(s.drop_first());
        }
    }
}

proof fn lemma_trim_end_lower(s: Seq<char>)
    ensures
        trim_end(ascii_lower(s)) == ascii_lower(trim_end(s)),
    decreases s.len(),
{
    if s.len() > 0 {
        lemma_lower_keeps_white_space(s.last());
        if white_space(s.last()) {
            assert(ascii_lower(s).drop_last() =~= ascii_lower(s.drop_last()));
            lemma_trim_end_lower(s.drop_last());
        }
    }
}

proof fn lemma_trimmed_lower(s: Seq<char>)
    ensures
        trimmed(ascii_lower(s)) == ascii_lower(trimmed(s)),
{
    lemma_trim_start_lower(s);
    lemma_trim_end_lower(trim_start(s));
}

/// Letter case does not matter: two texts that differ only in the case of
/// their ASCII letters name the same backend, or none, whatever other
/// characters they hold.
pub proof fn law_letter_case_is_ignored(
    a: &str,
    b: &str,
    from_a: Result<Backend, BackendParseErr>,
    from_b: Result<Backend, BackendParseErr>,
)
    requires
        ascii_lower(a@) == ascii_lower(b@),
        call_ensures(Backend::from_str, (a,), from_a),
        call_ensures(Backend::from_str, (b,), from_b),
    ensures
        from_a == from_b,
        parsed_ascii(a@) == parsed_ascii(b@),
{
    lemma_trimmed_lower(a@);
    lemma_trimmed_lower(b@);
}

proof fn lemma_trim_start_first(s: Seq<char>)
    ensures
        trim_start(s).len() > 0 ==> !white_space(trim_start(s)[0]),
    decreases s.len(),
{
    if s.len() > 0 && white_space(s[0]) {
        lemma_trim_start_first(s.drop_first());
    }
}

proof fn lemma_trim_end_keeps(s: Seq<char>)
    ensures
        trim_end(s).len() > 0 ==> trim_end(s)[0] == s[0],
        trim_end(trim_end(s)) == trim_end(s),
    decreases s.len(),
{
    if s.len() > 0 && white_space(s.last()) {
        lemma_trim_end_keeps(s.drop_last());
    }
}

proof fn lemma_trimmed_twice(s: Seq<char>)
    ensures
        trimmed(trimmed(s)) == trimmed(s),
{
    lemma_trim_start_first(s);
    lemma_trim_end_keeps(trim_start(s));
}

/// Lower case may come first: a text and its lower case form name the same
/// backend, or none.
pub proof fn law_lower_case_may_come_first(
    s: &str,
    lower: String,
    text: &str,
    from_s: Result<Backend, BackendParseErr>,
    from_lower: Result<Backend, BackendParseErr>,
)
    requires
        call_ensures(str::to_lowercase, (s,), lower),
        text@ == lower@,
        call_ensures(Backend::from_str, (s,), from_s),
        call_ensures(Backend::from_str, (text,), from_lower),
    ensures
        from_lower == from_s,
{
    lemma_trimmed_twice(s@);
    lemma_trimmed_twice(lower@);
}

proof fn lemma_trim_start_blank(w: Seq<char>, s: Seq<char>)
    requires
        blank(w),
    ensures
        trim_start(w + s) == trim_start(s),
    decreases w.len(),
{
    if w.len() > 0 {
        assert((w + s)[0] == w[0]);
        assert((w + s).drop_first() =~= w.drop_first() + s);
        assert forall|i: int| 0 <= i < w.drop_first().len() implies #[trigger] white_space(
            w.drop_first()[i],
        ) by {
            assert(white_space(w[i + 1]));
        }
        lemma_trim_start_blank(w.drop_first(), s);
    } else {
        assert(w + s =~= s);
    }
}

proof fn lemma_trim_end_blank(s: Seq<char>, w: Seq<char>)
    requires
        blank(w),
    ensures
        trim_end(s + w) == trim_end(s),
    decreases w.len(),
{
    if w.len() > 0 {
        assert((s + w).last() == w.last());
        assert(white_space(w[w.len() - 1]));
        assert((s + w).drop_last() =~= s + w.drop_last());
        assert forall|i: int| 0 <= i < w.drop_last().len() implies #[trigger] white_space(
            w.drop_last()[i],
        ) by {
            assert(white_space(w[i]));
        }
        lemma_trim_end_blank(s, w.drop_last());
    } else {
        assert(s + w =~= s);
    }
}

proof fn lemma_trim_start_before(s: Seq<char>, w: Seq<char>)
    requires
        blank(w),
    ensures
        trim_end(trim_start(s + w)) == trim_end(trim_start(s)),
    decreases s.len(),
{
    if s.len() == 0 {
        assert(s + w =~= w + s);
        lemma_trim_start_blank(w, s);
    } else if white_space(s[0]) {
        assert((s + w)[0] == s[0]);
        assert((s + w).drop_first() =~= s.drop_first() + w);
        lemma_trim_start_before(s.drop_first(), w);
    } else {
        assert((s + w)[0] == s[0]);
        lemma_trim_end_blank(s, w);
    }
}

/// White space around a name does not matter.
pub proof fn law_surrounding_space_is_ignored(before: Seq<char>, s: Seq<char>, after: Seq<char>)
    requires
        blank(before),
        blank(after),
    ensures
        parsed(before + s + after) == parsed(s),
        parsed_ascii(before + s + after) == parsed_ascii(s),
{
    assert(before + s + after =~= before + (s + after));
    lemma_trim_start_blank(before, s + after);
    lemma_trim_start_before(s, after);
}

/// Only a prod build ever talks to the prod backend, whatever the environment says.
pub proof fn law_prod_only_from_prod_build(
    env: Result<Backend, BackendFromEnvError>,
    build_type: BuildType,
)
    ensures
        choice(env, build_type) == Ok::<Backend, BackendChoiceError>(Backend::Prod) ==> build_type
            == BuildType::Prod,
{
}

/// A variable that is not set never stands in the way: every build then has
/// its own backend.
pub proof fn law_build_decides_without_variable(build_type: BuildType)
    ensures
        choice(env_backend(Err(VarError::NotPresent)), build_type) == Ok::<
            Backend,
            BackendChoiceError,
        >(own_backend(build_type)),
{
}

/// There is no choice exactly if the variable is set and names no backend, or
/// names prod on a staging or analysis build.
pub proof fn law_when_there_is_no_choice(
    var: Result<Seq<char>, VarError>,
    build_type: BuildType,
)
    ensures
        choice(env_backend(var), build_type) is Err <==> {
            ||| var == Err::<Seq<char>, VarError>(VarError::NotUnicode)
            ||| var matches Ok(text) && parsed(text) is Err
            ||| var matches Ok(text) && parsed(text) == Ok::<Backend, BackendParseErr>(
                Backend::Prod,
            ) && build_type != BuildType::Prod
        },
{
}

/// Which names there are: a text names a backend exactly if what is left of it
/// in lower case, without the white space around it, is one of the names of
/// that backend.
pub proof fn law_every_name_is_known(s: &str, r: Result<Backend, BackendParseErr>)
    requires
        call_ensures(Backend::from_str, (s,), r),
    ensures
        ({
            let word = lowercase(trimmed(s@));
            &&& r == Ok::<Backend, BackendParseErr>(Backend::Prod) <==> word == "prod"@ || word
                == "production"@
            &&& r == Ok::<Backend, BackendParseErr>(Backend::Staging) <==> word == "stage"@ || word
                == "staging"@ || word == "dev"@ || word == "development"@
            &&& r == Ok::<Backend, BackendParseErr>(Backend::Analysis) <==> word == "analysis"@
                || word == "analysis.ml"@ || word == "analysis-ml"@
            &&& r == Ok::<Backend, BackendParseErr>(Backend::Local) <==> word == "local"@ || word
                == "localhost"@ || word == "127.0.0.1"@
        }),
{
    reveal_strlit("prod");
    reveal_strlit("production");
    reveal_strlit("stage");
    reveal_strlit("staging");
    reveal_strlit("dev");
    reveal_strlit("development");
    reveal_strlit("analysis");
    reveal_strlit("analysis.ml");
    reveal_strlit("analysis-ml");
    reveal_strlit("local");
    reveal_strlit("localhost");
    reveal_strlit("127.0.0.1");
    assert("prod"@[0] == 'p' && "production"@[0] == 'p');
    assert("stage"@[0] == 's' && "staging"@[0] == 's');
    assert("dev"@[0] == 'd' && "development"@[0] == 'd');
    assert("analysis"@[0] == 'a' && "analysis.ml"@[0] == 'a' && "analysis-ml"@[0] == 'a');
    assert("local"@[0] == 'l' && "localhost"@[0] == 'l' && "127.0.0.1"@[0] == '1');
}

/// The environment asks for what the text of its variable names: the same
/// backend, or an error that tells a text without a name from a variable that
/// is not set.
pub proof fn law_environment_asks_by_name(
    text: String,
    s: &str,
    named_by_text: Result<Backend, BackendParseErr>,
    by_text: Result<Backend, BackendFromEnvError>,
    by_garbage: Result<Backend, BackendFromEnvError>,
    by_nothing: Result<Backend, BackendFromEnvError>,
)
    requires
        text@ == s@,
        call_ensures(Backend::from_str, (s,), named_by_text),
        call_ensures(Backend::from_env, (Ok(text),), by_text),
        call_ensures(Backend::from_env, (Err(VarError::NotUnicode),), by_garbage),
        call_ensures(Backend::from_env, (Err(VarError::NotPresent),), by_nothing),
    ensures
        forall|b: Backend|
            by_text == Ok::<Backend, BackendFromEnvError>(b) <==> named_by_text == Ok::<
                Backend,
                BackendParseErr,
            >(b),
        named_by_text is Err <==> by_text == Err::<Backend, BackendFromEnvError>(
            BackendFromEnvError::Invalid(BackendParseErr),
        ),
        by_garbage == Err::<Backend, BackendFromEnvError>(
            BackendFromEnvError::Invalid(BackendParseErr),
        ),
        by_nothing == Err::<Backend, BackendFromEnvError>(BackendFromEnvError::NotSet),
{
}

/// The variable wins over the build: where it names a backend, that backend is
/// chosen or none is, and none is only for prod on a build that is not for it.
pub proof fn law_variable_wins_over_the_build(
    text: String,
    s: &str,
    build_type: BuildType,
    b: Backend,
    r: Result<Backend, BackendChoiceError>,
)
    requires
        text@ == s@,
        call_ensures(Backend::from_str, (s,), Ok::<Backend, BackendParseErr>(b)),
        call_ensures(Backend::try_from_env_or_build_type, (Ok(text), build_type), r),
    ensures
        r is Ok ==> r == Ok::<Backend, BackendChoiceError>(b),
        r is Err <==> b == Backend::Prod && build_type != BuildType::Prod,
        r is Err && build_type == BuildType::Staging ==> r->Err_0
            == BackendChoiceError::ProdOnStaging,
        r is Err && build_type == BuildType::Analysis ==> r->Err_0
            == BackendChoiceError::ProdOnAnalysis,
        choice(Ok(b), build_type) == r,
{
}

/// What the environment asks for is what is chosen, for every backend and
/// every build that may talk to it.
pub proof fn law_choice_is_what_was_asked_for(b: Backend, build_type: BuildType, chosen: Backend)
    requires
        choice(Ok(b), build_type) is Ok,
        call_ensures(Backend::from_env_or_build_type, (Ok(b), build_type), chosen),
    ensures
        chosen == b,
        choice(Ok(b), build_type) == Ok::<Backend, BackendChoiceError>(b),
{
}

/// A build has the backend of its own name where the environment says
/// nothing, and no backend where what the environment says is no name.
pub proof fn law_each_build_has_its_own_backend(
    build_type: BuildType,
    by_nothing: Result<Backend, BackendChoiceError>,
    chosen: Backend,
    text: String,
    s: &str,
    by_garbage: Result<Backend, BackendChoiceError>,
    by_text: Result<Backend, BackendChoiceError>,
)
    requires
        call_ensures(
            Backend::try_from_env_or_build_type,
            (Err(VarError::NotPresent), build_type),
            by_nothing,
        ),
        call_ensures(
            Backend::from_env_or_build_type,
            (Err(BackendFromEnvError::NotSet), build_type),
            chosen,
        ),
        call_ensures(
            Backend::try_from_env_or_build_type,
            (Err(VarError::NotUnicode), build_type),
            by_garbage,
        ),
        text@ == s@,
        call_ensures(Backend::from_str, (s,), Err::<Backend, BackendParseErr>(BackendParseErr)),
        call_ensures(Backend::try_from_env_or_build_type, (Ok(text), build_type), by_text),
    ensures
        by_nothing == Ok::<Backend, BackendChoiceError>(chosen),
        chosen == Backend::Prod <==> build_type == BuildType::Prod,
        chosen == Backend::Staging <==> build_type == BuildType::Staging,
        chosen == Backend::Analysis <==> build_type == BuildType::Analysis,
        by_garbage is Err,
        by_garbage->Err_0 == BackendChoiceError::Unparsable(
            BackendFromEnvError::Invalid(BackendParseErr),
        ),
        by_text == by_garbage,
{
}

} // verus!
