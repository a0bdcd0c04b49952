//! What settings and texts become.

use crate::binary64::{number_in, Binary64, NumberFaultView, NumericView};
use crate::config::{
    blank, expanded_path, file_read, Config, ConfigErrorView, ConfigView,
};
use crate::signing::{keypair_bytes, public_key_of};
use crate::text::{
    all_digits, decimal, digit, digits_value, has_substring, lex_less, outcome, signed_decimal,
    signed_value, trimmed, trimmed_end, trimmed_start, unsigned_part, viewed, white_space,
    without_end_slashes, writes_i64,
};
use vstd::prelude::*;

verus! {

/// Taking white space off the start of a text takes off all of it there, and nothing else.
pub proof fn white_space_is_taken_off_the_start(text: Seq<char>) -> (i: int)
    ensures
        0 <= i <= text.len(),
        trimmed_start(text) == text.subrange(i, text.len() as int),
        forall|j: int| 0 <= j < i ==> white_space(#[trigger] text[j]),
        i < text.len() ==> !white_space(text[i]),
    decreases text.len(),
{
    if text.len() > 0 && white_space(text.first()) {
        let rest = text.drop_first();
        let i = white_space_is_taken_off_the_start(rest);
        assert(rest.subrange(i, rest.len() as int) =~= text.subrange(i + 1, text.len() as int));
        assert forall|j: int| 0 <= j < i + 1 implies white_space(#[trigger] text[j]) by {
            if j > 0 {
                assert(rest[j - 1] == text[j]);
            }
        }
        i + 1
    } else {
        assert(text.subrange(0, text.len() as int) =~= text);
        0
    }
}

/// Taking white space off the end of a text takes off all of it there, and nothing else.
proof fn lemma_white_space_is_taken_off_the_end(text: Seq<char>) -> (i: int)
    ensures
        0 <= i <= text.len(),
        trimmed_end(text) == text.subrange(0, i),
        forall|j: int| i <= j < text.len() ==> white_space(#[trigger] text[j]),
        i > 0 ==> !white_space(text[i - 1]),
    decreases text.len(),
{
    if text.len() > 0 && white_space(text.last()) {
        let front = text.drop_last();
        let i = lemma_white_space_is_taken_off_the_end(front);
        assert(front.subrange(0, i) =~= text.subrange(0, i));
        assert forall|j: int| i <= j < text.len() implies white_space(#[trigger] text[j]) by {
            if j < front.len() {
                assert(front[j] == text[j]);
            }
        }
        i
    } else {
        assert(text.subrange(0, text.len() as int) =~= text);
        text.len() as int
    }
}

/// Trimming a text takes off all white space at both ends, and nothing else: the text is what is
/// left between white space, and what is left neither starts nor ends with it.
pub proof fn trimming_takes_off_the_ends(text: Seq<char>) -> (r: (int, int))
    ensures
        0 <= r.0 <= r.1 <= text.len(),
        trimmed(text) == text.subrange(r.0, r.1),
        forall|j: int| 0 <= j < r.0 ==> white_space(#[trigger] text[j]),
        forall|j: int| r.1 <= j < text.len() ==> white_space(#[trigger] text[j]),
        r.0 < r.1 ==> !white_space(text[r.0]) && !white_space(text[r.1 - 1]),
{
    let i = white_space_is_taken_off_the_start(text);
    let rest = text.subrange(i, text.len() as int);
    let k = lemma_white_space_is_taken_off_the_end(rest);
    assert(rest.subrange(0, k) =~= text.subrange(i, i + k));
    assert forall|j: int| i + k <= j < text.len() implies white_space(#[trigger] text[j]) by {
        assert(rest[j - i] == text[j]);
    }
    if k > 0 {
        assert(rest[k - 1] == text[i + k - 1]);
        assert(rest[0] == text[i]);
    }
    (i, i + k)
}

/// A text is blank where all of it is white space.
pub proof fn blank_texts_are_white_space(text: Seq<char>)
    ensures
        blank(text) <==> forall|j: int| 0 <= j < text.len() ==> white_space(#[trigger] text[j]),
{
    let (i, k) = trimming_takes_off_the_ends(text);
    if i < k {
        assert(!white_space(text[i]));
    }
}

/// Taking slashes off the end of a text takes off all of them there, and nothing else.
pub proof fn slashes_are_taken_off_the_end(text: Seq<char>) -> (i: int)
    ensures
        0 <= i <= text.len(),
        without_end_slashes(text) == text.subrange(0, i),
        forall|j: int| i <= j < text.len() ==> #[trigger] text[j] == '/',
        i > 0 ==> text[i - 1] != '/',
    decreases text.len(),
{
    if text.len() > 0 && text.last() == '/' {
        let front = text.drop_last();
        let i = slashes_are_taken_off_the_end(front);
        assert(front.subrange(0, i) =~= text.subrange(0, i));
        assert forall|j: int| i <= j < text.len() implies #[trigger] text[j] == '/' by {
            if j < front.len() {
                assert(front[j] == text[j]);
            }
        }
        i
    } else {
        assert(text.subrange(0, text.len() as int) =~= text);
        text.len() as int
    }
}

/// A pattern occurs in a text where the text is the pattern with something in front of it and
/// something behind it.
pub proof fn patterns_occur_between_other_text(
    text: Seq<char>,
    pattern: Seq<char>,
    front: Seq<char>,
    back: Seq<char>,
)
    ensures
        text == front + pattern + back ==> has_substring(text, pattern),
        has_substring(text, pattern) ==> exists|a: Seq<char>, b: Seq<char>|
            text == #[trigger] (a + pattern + b),
{
    if text == front + pattern + back {
        let i = front.len() as int;
        assert(text.subrange(i, i + pattern.len()) =~= pattern);
    }
    if has_substring(text, pattern) {
        let i = choose|i: int|
            0 <= i <= text.len() - pattern.len() && #[trigger] text.subrange(i, i + pattern.len())
                == pattern;
        let a = text.subrange(0, i);
        let b = text.subrange(i + pattern.len(), text.len() as int);
        assert(text =~= a + pattern + b) by {
            assert forall|j: int| 0 <= j < text.len() implies text[j] == #[trigger] (a + pattern
                + b)[j] by {
                if i <= j < i + pattern.len() {
                    assert(text.subrange(i, i + pattern.len())[j - i] == text[j]);
                }
            }
        }
    }
}

/// A number that is written in decimal reads as itself, and is written in digits alone.
pub proof fn decimal_digits_read_as_the_number(n: nat)
    ensures
        digits_value(decimal(n)) == n,
        all_digits(decimal(n)),
        decimal(n).len() > 0,
        n > 0 ==> digit(decimal(n)[0]) > 0,
        n == 0 ==> decimal(n).len() == 1,
    decreases n,
{
    let text = decimal(n);
    if n < 10 {
        assert(text.drop_last() =~= Seq::<char>::empty());
        assert(digits_value(text.drop_last()) == 0);
        lemma_digit(n as int);
    } else {
        decimal_digits_read_as_the_number(n / 10);
        lemma_digit((n % 10) as int);
        let front = decimal(n / 10);
        assert(text.drop_last() =~= front);
        assert(text[0] == front[0]);
        assert forall|i: int| 0 <= i < text.len() implies 0 <= digit(#[trigger] text[i]) <= 9 by {
            if i < front.len() {
                assert(text[i] == front[i]);
            }
        }
    }
}

proof fn lemma_digit(n: int)
    requires
        0 <= n < 10,
    ensures
        digit((48 + n) as char) == n,
{
    let code: u32 = (48 + n) as u32;
    assert(code as char as u32 == code);
}

/// A number that is written with its sign reads as itself, and texts that write a number of 64 bits
/// read as that number.
pub proof fn signed_numbers_read_as_themselves(n: int)
    ensures
        signed_value(signed_decimal(n)) == n,
        i64::MIN <= n <= i64::MAX ==> writes_i64(signed_decimal(n)),
{
    reveal_strlit("-");
    if n < 0 {
        decimal_digits_read_as_the_number((-n) as nat);
        let text = signed_decimal(n);
        assert(text[0] == '-');
        assert(unsigned_part(text) =~= decimal((-n) as nat));
    } else {
        decimal_digits_read_as_the_number(n as nat);
        let text = signed_decimal(n);
        assert(0 <= digit(text[0]) <= 9);
        assert(digit('-') == -3);
        assert(digit('+') == -5);
        assert(unsigned_part(text) == text);
    }
}

/// The sign in front of a number decides over its sign, and the digits behind it count as they
/// stand, from the last one on.
pub proof fn numbers_are_read_digit_by_digit(digits: Seq<char>, last: char)
    ensures
        digits_value(Seq::empty()) == 0,
        digits_value(digits.push(last)) == 10 * digits_value(digits) + (last as u32 - 48),
        signed_value(seq!['-'] + digits) == -digits_value(digits),
        signed_value(seq!['+'] + digits) == digits_value(digits),
        digits.len() > 0 && digits[0] != '-' && digits[0] != '+' ==> signed_value(digits)
            == digits_value(digits),
{
    assert(digits.push(last).drop_last() =~= digits);
    assert((seq!['-'] + digits).skip(1) =~= digits);
    assert((seq!['+'] + digits).skip(1) =~= digits);
}

/// A path that starts with the mark of the home directory goes on from there, where that is known;
/// any other path stays.
pub proof fn home_paths_are_expanded(path: Seq<char>, rest: Seq<char>, home: Seq<char>)
    ensures
        path == "~/"@ + rest ==> expanded_path(path, Some(home)) == home + "/"@ + rest,
        expanded_path(path, None) == path,
        !(path.len() >= 2 && path[0] == '~' && path[1] == '/') ==> expanded_path(path, Some(home))
            == path,
{
    reveal_strlit("~/");
    assert("~/"@.len() == 2 && "~/"@[0] == '~' && "~/"@[1] == '/');
    if path == "~/"@ + rest {
        assert(path.subrange(0, 2) =~= "~/"@);
        assert(path.subrange(2, path.len() as int) =~= rest);
    }
    if path.len() >= 2 && path.subrange(0, 2) == "~/"@ {
        assert(path.subrange(0, 2)[0] == path[0]);
        assert(path.subrange(0, 2)[1] == path[1]);
    }
}

/// The key of the settings, where it is not blank, is used without white space around it. Otherwise
/// it is the one in its file, where a file is named, and a file that cannot be read is told.
pub proof fn the_key_is_given_or_read(
    config: ConfigView,
    home: Option<Seq<char>>,
    api_key_file: Result<Seq<char>, Seq<char>>,
    private_key_file: Result<Seq<char>, Seq<char>>,
)
    ensures
        ({
            let result = config.resolved(home, api_key_file, private_key_file);
            let path = expanded_path(config.api_key_file, home);
            let is_given = config.api_key matches Some(key) && !blank(key);
            let is_read = !is_given && !blank(path);
            &&& is_read && api_key_file is Err ==> result == Err::<ConfigView, ConfigErrorView>(
                ConfigErrorView::ApiKey(api_key_file->Err_0),
            )
            &&& result matches Ok(resolved) ==> resolved.api_key == if is_given {
                Some(trimmed(config.api_key->0))
            } else if is_read && !blank(api_key_file->Ok_0) {
                Some(trimmed(api_key_file->Ok_0))
            } else {
                None
            }
            &&& config.prepared(home).api_key_source() == if is_read {
                Some(path)
            } else {
                None
            }
        }),
{
}

/// The account of the settings is used where it is not blank. Otherwise it is the public key of the
/// key in its file, where a file is named; a file that cannot be read is told, and so is a key that
/// cannot be used. Where neither is named the account stays blank.
pub proof fn the_account_is_given_or_derived(
    config: ConfigView,
    home: Option<Seq<char>>,
    api_key_file: Result<Seq<char>, Seq<char>>,
    private_key_file: Result<Seq<char>, Seq<char>>,
)
    requires
        config.prepared(home).api_key_source() is Some ==> api_key_file is Ok,
    ensures
        ({
            let result = config.resolved(home, api_key_file, private_key_file);
            let path = expanded_path(config.private_key_file, home);
            let is_given = !blank(config.account);
            let is_derived = !is_given && !blank(path);
            let key = private_key_file->Ok_0;
            let bytes = keypair_bytes(trimmed(key));
            let account = public_key_of(bytes->Ok_0);
            &&& !is_derived ==> (result matches Ok(resolved) && resolved.account == config.account)
            &&& is_derived && private_key_file is Err ==> result == Err::<
                ConfigView,
                ConfigErrorView,
            >(ConfigErrorView::PrivateKey(private_key_file->Err_0))
            &&& is_derived && private_key_file is Ok && bytes is Err ==> result == Err::<
                ConfigView,
                ConfigErrorView,
            >(ConfigErrorView::AccountDerivation(bytes->Err_0.words()))
            &&& is_derived && private_key_file is Ok && bytes is Ok && account is Err ==> result
                == Err::<ConfigView, ConfigErrorView>(
                ConfigErrorView::AccountDerivation(account->Err_0.words()),
            )
            &&& is_derived && private_key_file is Ok && bytes is Ok && account is Ok ==> (
            result matches Ok(resolved) && resolved.account == account->Ok_0)
            &&& config.prepared(home).account_source() == if is_derived {
                Some(path)
            } else {
                None
            }
        }),
{
}

/// Resolving expands the paths, and leaves the addresses, the prefix and the marks as they are.
pub proof fn resolving_leaves_the_addresses(
    config: ConfigView,
    home: Option<Seq<char>>,
    api_key_file: Result<Seq<char>, Seq<char>>,
    private_key_file: Result<Seq<char>, Seq<char>>,
)
    ensures
        config.resolved(home, api_key_file, private_key_file) matches Ok(resolved) ==> {
            &&& resolved.public_url == config.public_url
            &&& resolved.private_url == config.private_url
            &&& resolved.trade_url == config.trade_url
            &&& resolved.rest_url == config.rest_url
            &&& resolved.private_key_file == expanded_path(config.private_key_file, home)
            &&& resolved.api_key_file == expanded_path(config.api_key_file, home)
            &&& resolved.order_prefix == config.order_prefix
            &&& resolved.startup_policy == config.startup_policy
            &&& resolved.testnet == config.testnet
        },
{
}

/// Settings can be used where every address, the account, the key file and the prefix are filled in
/// and the prefix has 32 characters at most. Otherwise the first thing that is wrong is told.
pub proof fn usable_settings_are_filled_in(config: ConfigView)
    ensures
        ({
            let fields = seq![
                (config.public_url, "public_url"@),
                (config.private_url, "private_url"@),
                (config.trade_url, "trade_url"@),
                (config.rest_url, "rest_url"@),
                (config.account, "account"@),
                (config.private_key_file, "private_key_file"@),
                (config.order_prefix, "order_prefix"@),
            ];
            let filled = forall|i: int| 0 <= i < 7 ==> !blank((#[trigger] fields[i]).0);
            &&& config.fault() is None <==> filled && config.order_prefix.len() <= 32
            &&& filled && config.order_prefix.len() > 32 ==> config.fault() == Some(
                ConfigErrorView::Invalid {
                    field: "order_prefix"@,
                    reason: "must be 32 characters or fewer"@,
                },
            )
            &&& forall|i: int|
                #![trigger fields[i]]
                0 <= i < 7 && blank(fields[i].0) && (forall|j: int|
                    0 <= j < i ==> !blank((#[trigger] fields[j]).0)) ==> config.fault() == Some(
                    ConfigErrorView::Missing(fields[i].1),
                )
        }),
{
    let fields = seq![
        (config.public_url, "public_url"@),
        (config.private_url, "private_url"@),
        (config.trade_url, "trade_url"@),
        (config.rest_url, "rest_url"@),
        (config.account, "account"@),
        (config.private_key_file, "private_key_file"@),
        (config.order_prefix, "order_prefix"@),
    ];
    assert(fields[0].0 == config.public_url && fields[1].0 == config.private_url && fields[2].0
        == config.trade_url && fields[3].0 == config.rest_url && fields[4].0 == config.account
        && fields[5].0 == config.private_key_file && fields[6].0 == config.order_prefix);
}

/// What is said of settings, and of a file that was read, is what stands in them.
pub proof fn settings_say_what_they_hold(config: Config, file: Result<String, String>)
    ensures
        config@.public_url == config.public_url@,
        config@.private_url == config.private_url@,
        config@.trade_url == config.trade_url@,
        config@.rest_url == config.rest_url@,
        config@.account == config.account@,
        config@.private_key_file == config.private_key_file@,
        config@.api_key == config.api_key.deep_view(),
        config@.api_key_file == config.api_key_file@,
        config@.order_prefix == config.order_prefix@,
        config@.startup_policy == config.startup_policy,
        config@.testnet == config.testnet,
        file matches Ok(text) ==> file_read(file) == Ok::<Seq<char>, Seq<char>>(text@),
        file matches Err(error) ==> file_read(file) == Err::<Seq<char>, Seq<char>>(error@),
{
}

/// The first character in which two texts differ decides which stands before the other, by its code
/// point; a text stands before those that go on from it.
pub proof fn the_first_difference_decides(
    common: Seq<char>,
    a: char,
    b: char,
    rest_a: Seq<char>,
    rest_b: Seq<char>,
)
    ensures
        (a as u32) < (b as u32) ==> lex_less(
            common + seq![a] + rest_a,
            common + seq![b] + rest_b,
        ),
        lex_less(common, common + seq![b] + rest_b),
    decreases common.len(),
{
    let x = common + seq![a] + rest_a;
    let y = common + seq![b] + rest_b;
    if common.len() > 0 {
        let rest = common.drop_first();
        the_first_difference_decides(rest, a, b, rest_a, rest_b);
        assert(x.drop_first() =~= rest + seq![a] + rest_a);
        assert(y.drop_first() =~= rest + seq![b] + rest_b);
        assert(x.first() == common.first() && y.first() == common.first());
    } else {
        assert(x.first() == a && y.first() == b);
    }
}

/// What is said of a result is what it holds: its value where it is a success, and its error where
/// it is not.
pub proof fn results_say_what_they_hold<T: DeepView, U: View, E: View>(
    a: Result<T, E>,
    b: Result<U, E>,
)
    ensures
        a matches Ok(value) ==> outcome(a) == Ok::<T::V, E::V>(value.deep_view()),
        a matches Err(error) ==> outcome(a) == Err::<T::V, E::V>(error@),
        b matches Ok(value) ==> viewed(b) == Ok::<U::V, E>(value@),
        b matches Err(error) ==> viewed(b) == Err::<U::V, E>(error),
{
}

/// A field is the number that it writes, or a fault with its name and its characters.
pub proof fn fields_are_numbers_or_faults(field: Seq<char>, number: NumericView)
    ensures
        number.value matches Some(value) ==> number_in(field, number) == Ok::<
            Binary64,
            NumberFaultView,
        >(value),
        number.value is None ==> (number_in(field, number) matches Err(fault) && fault.field
            == field && fault.value == number.text),
{
}

} // verus!
