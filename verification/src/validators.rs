use vstd::prelude::*;

use vstd::string::StrSliceExecFns;

use crate::chars::{
    alphanumeric_char, lowercase_char, numeric_char, uppercase_char, whitespace_char,
};
use crate::errors::CoreErrors;
use crate::find::{
    first_index_where, lemma_filter_push, lemma_first_index_where_found,
    lemma_first_index_where_none, lemma_first_index_where_properties,
};

verus! {

/// The result is a validation error carrying exactly this message.
pub open spec fn is_validation_err<T>(r: Result<T, CoreErrors>, msg: Seq<char>) -> bool {
    match r {
        Err(CoreErrors::DataValidationError(m)) => m@ == msg,
        _ => false,
    }
}

fn validation_err(msg: &str) -> (r: Result<String, CoreErrors>)
    ensures
        is_validation_err(r, msg@),
        r is Err,
{
    Err(CoreErrors::DataValidationError(msg.to_owned()))
}

pub open spec fn all_numeric(s: Seq<char>) -> bool {
    forall|j: int| 0 <= j < s.len() ==> numeric_char(#[trigger] s[j])
}

pub open spec fn any_whitespace(s: Seq<char>) -> bool {
    exists|j: int| 0 <= j < s.len() && whitespace_char(#[trigger] s[j])
}

/// A login is acceptable when it has at least 3 characters, is not entirely
/// numeric, and contains no whitespace.
pub open spec fn spec_valid_login(s: Seq<char>) -> bool {
    s.len() >= 3 && !all_numeric(s) && !any_whitespace(s)
}

/// Validates the format of a login string: minimum length 3, not entirely
/// numeric, no whitespace. Hands the value through on success.
#[verifier::loop_isolation(false)]
pub fn login_format_validation(login: String) -> (r: Result<String, CoreErrors>)
    ensures
        r is Ok <==> spec_valid_login(login@),
        spec_valid_login(login@) ==> r == Ok::<String, CoreErrors>(login),
        login@.len() < 3 ==> is_validation_err(r, "login_format_error_min_length"@),
        login@.len() >= 3 && all_numeric(login@) ==> is_validation_err(
            r,
            "login_format_error_only_numbers"@,
        ),
        login@.len() >= 3 && !all_numeric(login@) && any_whitespace(login@) ==> is_validation_err(
            r,
            "login_format_error_no_whitespace"@,
        ),
{
    let n = login.as_str().unicode_len();
    if n < 3 {
        return validation_err("login_format_error_min_length");
    }
    let mut i: usize = 0;
    let mut all_num = true;
    while i < n
        invariant
            i <= n,
            n == login@.len(),
            all_num <==> forall|j: int| 0 <= j < i ==> numeric_char(#[trigger] login@[j]),
        decreases n - i,
    {
        if !login.as_str().get_char(i).is_numeric() {
            all_num = false;
        }
        i += 1;
    }
    if all_num {
        return validation_err("login_format_error_only_numbers");
    }
    let mut k: usize = 0;
    let mut has_ws = false;
    while k < n
        invariant
            k <= n,
            n == login@.len(),
            has_ws <==> exists|j: int| 0 <= j < k && whitespace_char(#[trigger] login@[j]),
        decreases n - k,
    {
        if login.as_str().get_char(k).is_whitespace() {
            has_ws = true;
        }
        k += 1;
    }
    if has_ws {
        return validation_err("login_format_error_no_whitespace");
    }
    Ok(login)
}

// The password walk classifies each character by the first class that
// matches, in this order: uppercase, lowercase, digit, whitespace.
pub open spec fn chain_lower(c: char) -> bool {
    !uppercase_char(c) && lowercase_char(c)
}

pub open spec fn chain_digit(c: char) -> bool {
    !uppercase_char(c) && !lowercase_char(c) && numeric_char(c)
}

pub open spec fn chain_whitespace(c: char) -> bool {
    !uppercase_char(c) && !lowercase_char(c) && !numeric_char(c) && whitespace_char(c)
}

/// Some character is, by the classification chain, whitespace.
pub open spec fn pw_whitespace_violation(s: Seq<char>) -> bool {
    exists|j: int| 0 <= j < s.len() && chain_whitespace(#[trigger] s[j])
}

/// The password shows an uppercase letter, a lowercase letter and a digit,
/// each by the classification chain.
pub open spec fn pw_requirements_met(s: Seq<char>) -> bool {
    &&& exists|j: int| 0 <= j < s.len() && uppercase_char(#[trigger] s[j])
    &&& exists|j: int| 0 <= j < s.len() && chain_lower(#[trigger] s[j])
    &&& exists|j: int| 0 <= j < s.len() && chain_digit(#[trigger] s[j])
}

/// A password is acceptable when it has at least 6 characters, no
/// whitespace, and at least one uppercase letter, lowercase letter and
/// digit.
pub open spec fn spec_valid_password(s: Seq<char>) -> bool {
    s.len() >= 6 && !pw_whitespace_violation(s) && pw_requirements_met(s)
}

/// Validates the format of a password string: minimum length 6, at least
/// one uppercase letter, one lowercase letter and one digit, and no
/// whitespace. Hands the value through on success.
#[verifier::loop_isolation(false)]
pub fn password_format_validation(password: String) -> (r: Result<String, CoreErrors>)
    ensures
        r is Ok <==> spec_valid_password(password@),
        spec_valid_password(password@) ==> r == Ok::<String, CoreErrors>(password),
        password@.len() < 6 ==> is_validation_err(r, "password_format_error_min_length"@),
        password@.len() >= 6 && pw_whitespace_violation(password@) ==> is_validation_err(
            r,
            "password_format_error_no_whitespace"@,
        ),
        password@.len() >= 6 && !pw_whitespace_violation(password@) && !pw_requirements_met(
            password@,
        ) ==> is_validation_err(r, "password_format_error_missing_requirements"@),
{
    let n = password.as_str().unicode_len();
    if n < 6 {
        return validation_err("password_format_error_min_length");
    }
    let mut has_uppercase = false;
    let mut has_lowercase = false;
    let mut has_digit = false;
    let mut i: usize = 0;
    while i < n
        invariant
            i <= n,
            n == password@.len(),
            has_uppercase <==> exists|j: int| 0 <= j < i && uppercase_char(#[trigger] password@[j]),
            has_lowercase <==> exists|j: int| 0 <= j < i && chain_lower(#[trigger] password@[j]),
            has_digit <==> exists|j: int| 0 <= j < i && chain_digit(#[trigger] password@[j]),
            forall|j: int| 0 <= j < i ==> !chain_whitespace(#[trigger] password@[j]),
        decreases n - i,
    {
        let c = password.as_str().get_char(i);
        if c.is_uppercase() {
            has_uppercase = true;
        } else if c.is_lowercase() {
            has_lowercase = true;
        } else if c.is_numeric() {
            has_digit = true;
        } else if c.is_whitespace() {
            return validation_err("password_format_error_no_whitespace");
        }
        i += 1;
    }
    if has_uppercase && has_lowercase && has_digit {
        Ok(password)
    } else {
        validation_err("password_format_error_missing_requirements")
    }
}

pub open spec fn eq_char_pred(c0: char) -> spec_fn(char) -> bool {
    |c: char| c == c0
}

/// How many '@' signs the string holds.
pub open spec fn at_sign_count(s: Seq<char>) -> int {
    s.filter(eq_char_pred('@')).len() as int
}

/// Whether a '.' occurs strictly after position `k`.
pub open spec fn dot_after(s: Seq<char>, k: int) -> bool {
    exists|j: int| k < j < s.len() && #[trigger] s[j] == '.'
}

/// An email is acceptable when it has exactly one '@', a non-empty local
/// part, and a non-empty domain containing a '.'.
pub open spec fn spec_valid_email(s: Seq<char>) -> bool {
    &&& at_sign_count(s) == 1
    &&& match first_index_where(s, eq_char_pred('@')) {
        Some(k) => 0 < k < s.len() - 1 && dot_after(s, k),
        None => false,
    }
}

/// Validates the format of an email address: exactly one '@', a non-empty
/// local part and domain, and a '.' somewhere in the domain. Hands the value
/// through on success.
#[verifier::loop_isolation(false)]
pub fn email_format_validation(email: String) -> (r: Result<String, CoreErrors>)
    ensures
        r is Ok <==> spec_valid_email(email@),
        spec_valid_email(email@) ==> r == Ok::<String, CoreErrors>(email),
        at_sign_count(email@) != 1 ==> is_validation_err(
            r,
            "email_format_error_invalid_at_symbol"@,
        ),
        at_sign_count(email@) == 1 && (match first_index_where(email@, eq_char_pred('@')) {
            Some(k) => k == 0 || k == email@.len() - 1,
            None => false,
        }) ==> is_validation_err(r, "email_format_error_empty_local_or_domain"@),
        at_sign_count(email@) == 1 && (match first_index_where(email@, eq_char_pred('@')) {
            Some(k) => 0 < k < email@.len() - 1 && !dot_after(email@, k),
            None => false,
        }) ==> is_validation_err(r, "email_format_error_invalid_domain"@),
        at_sign_count(email@) == 1 ==> first_index_where(email@, eq_char_pred('@')) is Some,
        first_index_where(email@, eq_char_pred('@')) matches Some(k) ==> 0 <= k < email@.len(),
{
    proof {
        lemma_first_index_where_properties(email@, eq_char_pred('@'));
    }
    let ghost p = eq_char_pred('@');
    let n = email.as_str().unicode_len();
    let mut count: usize = 0;
    let mut at_idx: Option<usize> = None;
    let mut has_dot_after: bool = false;
    let mut i: usize = 0;
    while i < n
        invariant
            i <= n,
            n == email@.len(),
            count as int == email@.take(i as int).filter(p).len(),
            count <= i,
            match at_idx {
                Some(k) => k < i && p(email@[k as int]) && (forall|j: int|
                    0 <= j < k ==> !p(#[trigger] email@[j])) && first_index_where(
                    email@.take(i as int),
                    p,
                ) == Some(k as int),
                None => first_index_where(email@.take(i as int), p) is None && (forall|j: int|
                    0 <= j < i ==> !p(#[trigger] email@[j])),
            },
            match at_idx {
                Some(k) => has_dot_after <==> exists|j: int|
                    k < j < i && #[trigger] email@[j] == '.',
                None => !has_dot_after,
            },
        decreases n - i,
    {
        let c = email.as_str().get_char(i);
        proof {
            assert(email@.take(i + 1int) =~= email@.take(i as int).push(email@[i as int]));
            lemma_filter_push(email@.take(i as int), p, email@[i as int]);
            email@.take(i + 1int).lemma_filter_len(p);
            if at_idx is None {
                if p(email@[i as int]) {
                    lemma_first_index_where_found(email@.take(i + 1int), p, i as int);
                } else {
                    lemma_first_index_where_none(email@.take(i + 1int), p);
                }
            } else {
                let k = at_idx->Some_0;
                lemma_first_index_where_found(email@.take(i + 1int), p, k as int);
            }
        }
        if c == '@' {
            count += 1;
            if at_idx.is_none() {
                at_idx = Some(i);
            }
        } else if c == '.' {
            if at_idx.is_some() {
                has_dot_after = true;
            }
        }
        i += 1;
    }
    proof {
        assert(email@.take(n as int) =~= email@);
    }
    if count != 1 {
        return validation_err("email_format_error_invalid_at_symbol");
    }
    let k = match at_idx {
        Some(k) => k,
        None => {
            proof {
                crate::find::lemma_filter_none_empty(email@, p);
            }
            return validation_err("email_format_error_invalid_at_symbol");
        },
    };
    if k == 0 || k == n - 1 {
        return validation_err("email_format_error_empty_local_or_domain");
    }
    if !has_dot_after {
        return validation_err("email_format_error_invalid_domain");
    }
    Ok(email)
}

/// Validator that rejects the empty string.
pub fn empty_validation(value: String) -> (r: Result<String, CoreErrors>)
    ensures
        r is Ok <==> value@.len() > 0,
        value@.len() > 0 ==> r == Ok::<String, CoreErrors>(value),
        value@.len() == 0 ==> is_validation_err(r, "validator_empty"@),
{
    if value.as_str().is_empty() {
        return validation_err("validator_empty");
    }
    Ok(value)
}

/// Validator that demands at least 3 characters.
pub fn min_symbols_validator_3(value: String) -> (r: Result<String, CoreErrors>)
    ensures
        r is Ok <==> value@.len() >= 3,
        value@.len() >= 3 ==> r == Ok::<String, CoreErrors>(value),
        value@.len() < 3 ==> is_validation_err(r, "validator_min_symbols"@),
{
    if value.as_str().unicode_len() < 3 {
        return validation_err("validator_min_symbols");
    }
    Ok(value)
}

/// Validator that allows at most 20 characters.
pub fn max_symbols_validator_20(value: String) -> (r: Result<String, CoreErrors>)
    ensures
        r is Ok <==> value@.len() <= 20,
        value@.len() <= 20 ==> r == Ok::<String, CoreErrors>(value),
        value@.len() > 20 ==> is_validation_err(r, "validator_max_symbols"@),
{
    if value.as_str().unicode_len() > 20 {
        return validation_err("validator_max_symbols");
    }
    Ok(value)
}

/// Validator that allows at most 250 characters.
pub fn max_symbols_validator_250(value: String) -> (r: Result<String, CoreErrors>)
    ensures
        r is Ok <==> value@.len() <= 250,
        value@.len() <= 250 ==> r == Ok::<String, CoreErrors>(value),
        value@.len() > 250 ==> is_validation_err(r, "validator_max_symbols"@),
{
    if value.as_str().unicode_len() > 250 {
        return validation_err("validator_max_symbols");
    }
    Ok(value)
}

/// The string holds only alphanumeric characters and spaces.
pub open spec fn spec_no_special_symbols(s: Seq<char>) -> bool {
    forall|j: int| 0 <= j < s.len() ==> alphanumeric_char(#[trigger] s[j]) || s[j] == ' '
}

/// Validator that rejects anything but alphanumeric characters and spaces.
#[verifier::loop_isolation(false)]
pub fn no_special_symbols_validator(value: String) -> (r: Result<String, CoreErrors>)
    ensures
        r is Ok <==> spec_no_special_symbols(value@),
        spec_no_special_symbols(value@) ==> r == Ok::<String, CoreErrors>(value),
        !spec_no_special_symbols(value@) ==> is_validation_err(r, "validator_special_symbols"@),
{
    let n = value.as_str().unicode_len();
    let mut i: usize = 0;
    while i < n
        invariant
            i <= n,
            n == value@.len(),
            forall|j: int|
                0 <= j < i ==> alphanumeric_char(#[trigger] value@[j]) || value@[j] == ' ',
        decreases n - i,
    {
        let c = value.as_str().get_char(i);
        if !c.is_alphanumeric() && c != ' ' {
            return validation_err("validator_special_symbols");
        }
        i += 1;
    }
    Ok(value)
}

pub open spec fn hex_digit_char(c: char) -> bool {
    ('0' <= c && c <= '9') || ('A' <= c && c <= 'F') || ('a' <= c && c <= 'f')
}

/// A hexadecimal color: '#' followed by exactly 3 or 6 hex digits.
pub open spec fn spec_hex_color(s: Seq<char>) -> bool {
    &&& (s.len() == 4 || s.len() == 7)
    &&& s[0] == '#'
    &&& forall|j: int| 1 <= j < s.len() ==> hex_digit_char(#[trigger] s[j])
}

/// Validator that accepts exactly the hexadecimal colors: a '#' followed by
/// 3 or 6 hexadecimal digits.
#[verifier::loop_isolation(false)]
pub fn hex_color_validator(value: String) -> (r: Result<String, CoreErrors>)
    ensures
        r is Ok <==> spec_hex_color(value@),
        spec_hex_color(value@) ==> r == Ok::<String, CoreErrors>(value),
        !spec_hex_color(value@) ==> is_validation_err(r, "validator_invalid_hex_color"@),
{
    let n = value.as_str().unicode_len();
    if n != 4 && n != 7 {
        return validation_err("validator_invalid_hex_color");
    }
    if value.as_str().get_char(0) != '#' {
        return validation_err("validator_invalid_hex_color");
    }
    let mut i: usize = 1;
    while i < n
        invariant
            1 <= i <= n,
            n == value@.len(),
            forall|j: int| 1 <= j < i ==> hex_digit_char(#[trigger] value@[j]),
        decreases n - i,
    {
        let c = value.as_str().get_char(i);
        let is_hex = ('0' <= c && c <= '9') || ('A' <= c && c <= 'F') || ('a' <= c && c <= 'f');
        if !is_hex {
            return validation_err("validator_invalid_hex_color");
        }
        i += 1;
    }
    Ok(value)
}

/// The validators a pipeline can be built from, one name per validation
/// function of this module.
#[derive(Clone, Copy, Debug, PartialEq, Eq, Structural)]
pub enum ValidatorKind {
    Empty,
    MinSymbols3,
    MaxSymbols20,
    MaxSymbols250,
    NoSpecialSymbols,
    HexColor,
    LoginFormat,
    PasswordFormat,
    EmailFormat,
}

/// Whether the named validator accepts the string.
pub open spec fn validator_accepts(v: ValidatorKind, s: Seq<char>) -> bool {
    match v {
        ValidatorKind::Empty => s.len() > 0,
        ValidatorKind::MinSymbols3 => s.len() >= 3,
        ValidatorKind::MaxSymbols20 => s.len() <= 20,
        ValidatorKind::MaxSymbols250 => s.len() <= 250,
        ValidatorKind::NoSpecialSymbols => spec_no_special_symbols(s),
        ValidatorKind::HexColor => spec_hex_color(s),
        ValidatorKind::LoginFormat => spec_valid_login(s),
        ValidatorKind::PasswordFormat => spec_valid_password(s),
        ValidatorKind::EmailFormat => spec_valid_email(s),
    }
}

/// The message the named validator reports for a string it rejects.
pub open spec fn validator_error(v: ValidatorKind, s: Seq<char>) -> Seq<char> {
    match v {
        ValidatorKind::Empty => "validator_empty"@,
        ValidatorKind::MinSymbols3 => "validator_min_symbols"@,
        ValidatorKind::MaxSymbols20 => "validator_max_symbols"@,
        ValidatorKind::MaxSymbols250 => "validator_max_symbols"@,
        ValidatorKind::NoSpecialSymbols => "validator_special_symbols"@,
        ValidatorKind::HexColor => "validator_invalid_hex_color"@,
        ValidatorKind::LoginFormat => if s.len() < 3 {
            "login_format_error_min_length"@
        } else if all_numeric(s) {
            "login_format_error_only_numbers"@
        } else {
            "login_format_error_no_whitespace"@
        },
        ValidatorKind::PasswordFormat => if s.len() < 6 {
            "password_format_error_min_length"@
        } else if pw_whitespace_violation(s) {
            "password_format_error_no_whitespace"@
        } else {
            "password_format_error_missing_requirements"@
        },
        ValidatorKind::EmailFormat => if at_sign_count(s) != 1 {
            "email_format_error_invalid_at_symbol"@
        } else {
            match first_index_where(s, eq_char_pred('@')) {
                Some(k) => if k == 0 || k == s.len() - 1 {
                    "email_format_error_empty_local_or_domain"@
                } else {
                    "email_format_error_invalid_domain"@
                },
                None => "email_format_error_invalid_at_symbol"@,
            }
        },
    }
}

impl ValidatorKind {
    /// Runs the named validator: the value passes through unchanged or the
    /// validator's message comes back.
    #[verifier::rlimit(50)]
    pub fn apply(self, value: String) -> (r: Result<String, CoreErrors>)
        ensures
            r is Ok <==> validator_accepts(self, value@),
            validator_accepts(self, value@) ==> r == Ok::<String, CoreErrors>(value),
            !validator_accepts(self, value@) ==> is_validation_err(
                r,
                validator_error(self, value@),
            ),
    {
        match self {
            ValidatorKind::Empty => empty_validation(value),
            ValidatorKind::MinSymbols3 => min_symbols_validator_3(value),
            ValidatorKind::MaxSymbols20 => max_symbols_validator_20(value),
            ValidatorKind::MaxSymbols250 => max_symbols_validator_250(value),
            ValidatorKind::NoSpecialSymbols => no_special_symbols_validator(value),
            ValidatorKind::HexColor => hex_color_validator(value),
            ValidatorKind::LoginFormat => login_format_validation(value),
            ValidatorKind::PasswordFormat => password_format_validation(value),
            ValidatorKind::EmailFormat => email_format_validation(value),
        }
    }
}

/// The predicate selecting the validators of a pipeline that reject `s`.
pub open spec fn rejects_pred(s: Seq<char>) -> spec_fn(ValidatorKind) -> bool {
    |v: ValidatorKind| !validator_accepts(v, s)
}

/// A composite validator: a pipeline of validators applied in order. Every
/// validator hands the value through unchanged, so the pipeline accepts
/// exactly when each member does, and otherwise reports the first failure.
pub struct CompositValidator {
    validators: Vec<ValidatorKind>,
}

impl CompositValidator {
    /// Builds the pipeline from the given validators.
    pub fn new(validators: Vec<ValidatorKind>) -> (r: CompositValidator)
        ensures
            r.spec_validators() == validators@,
    {
        CompositValidator { validators }
    }

    /// The validators of the pipeline, in order.
    pub closed spec fn spec_validators(self) -> Seq<ValidatorKind> {
        self.validators@
    }

    /// Applies all validators in sequence to the given value; the first
    /// failure wins.
    #[verifier::loop_isolation(false)]
    pub fn validate(&self, value: String) -> (r: Result<String, CoreErrors>)
        ensures
            r is Ok <==> forall|i: int|
                0 <= i < self.spec_validators().len() ==> validator_accepts(
                    #[trigger] self.spec_validators()[i],
                    value@,
                ),
            r is Ok ==> r == Ok::<String, CoreErrors>(value),
            r is Err ==> match first_index_where(self.spec_validators(), rejects_pred(value@)) {
                Some(k) => is_validation_err(
                    r,
                    validator_error(self.spec_validators()[k], value@),
                ),
                None => false,
            },
    {
        let ghost p = rejects_pred(value@);
        let mut acc = value;
        let mut i: usize = 0;
        while i < self.validators.len()
            invariant
                i <= self.validators@.len(),
                acc == value,
                forall|j: int|
                    0 <= j < i ==> validator_accepts(#[trigger] self.spec_validators()[j], value@),
            decreases self.validators@.len() - i,
        {
            let v = self.validators[i];
            match v.apply(acc) {
                Ok(next) => {
                    acc = next;
                },
                Err(e) => {
                    proof {
                        lemma_first_index_where_found(self.validators@, p, i as int);
                    }
                    return Err(e);
                },
            }
            i += 1;
        }
        Ok(acc)
    }
}


/// Every validator of the pipeline accepts the string.
pub open spec fn pipeline_accepts(ks: Seq<ValidatorKind>, s: Seq<char>) -> bool {
    forall|i: int| 0 <= i < ks.len() ==> validator_accepts(#[trigger] ks[i], s)
}

/// The message of the first validator of the pipeline that rejects the
/// string.
pub open spec fn pipeline_error(ks: Seq<ValidatorKind>, s: Seq<char>) -> Seq<char> {
    match first_index_where(ks, rejects_pred(s)) {
        Some(k) => validator_error(ks[k], s),
        None => Seq::empty(),
    }
}

/// The pipeline applied to resource names and tags: non-empty, 3 to 20
/// characters, no special symbols.
pub open spec fn name_pipeline() -> Seq<ValidatorKind> {
    seq![
        ValidatorKind::Empty,
        ValidatorKind::MinSymbols3,
        ValidatorKind::MaxSymbols20,
        ValidatorKind::NoSpecialSymbols,
    ]
}

/// The pipeline applied to descriptions and note contents: non-empty, 3 to
/// 250 characters.
pub open spec fn description_pipeline() -> Seq<ValidatorKind> {
    seq![ValidatorKind::Empty, ValidatorKind::MinSymbols3, ValidatorKind::MaxSymbols250]
}

/// The pipeline applied to decoration colors: non-empty and a hex color.
pub open spec fn color_pipeline() -> Seq<ValidatorKind> {
    seq![ValidatorKind::Empty, ValidatorKind::HexColor]
}

/// Builds the name pipeline.
pub fn name_validator() -> (r: CompositValidator)
    ensures
        r.spec_validators() == name_pipeline(),
{
    let v = CompositValidator::new(
        vec![
            ValidatorKind::Empty,
            ValidatorKind::MinSymbols3,
            ValidatorKind::MaxSymbols20,
            ValidatorKind::NoSpecialSymbols,
        ],
    );
    proof {
        assert(v.spec_validators() =~= name_pipeline());
    }
    v
}

/// Builds the description pipeline.
pub fn description_validator() -> (r: CompositValidator)
    ensures
        r.spec_validators() == description_pipeline(),
{
    let v = CompositValidator::new(
        vec![ValidatorKind::Empty, ValidatorKind::MinSymbols3, ValidatorKind::MaxSymbols250],
    );
    proof {
        assert(v.spec_validators() =~= description_pipeline());
    }
    v
}

/// Builds the color pipeline.
pub fn color_validator() -> (r: CompositValidator)
    ensures
        r.spec_validators() == color_pipeline(),
{
    let v = CompositValidator::new(vec![ValidatorKind::Empty, ValidatorKind::HexColor]);
    proof {
        assert(v.spec_validators() =~= color_pipeline());
    }
    v
}

} // verus!
