//! Rendering of catalog messages with `{ $name }` placeholders.
use vstd::prelude::*;
use crate::i18n::catalog::{lookup, lookup_spec};
use crate::i18n::keys::{key_text, I18nKey};
use crate::i18n::locale::BotLocale;
use crate::text::{chars_of, replace_all, replace_chars, string_from_chars};

verus! {

/// A named value substituted for the `{ $name }` placeholder of a message.
#[derive(Debug, Clone, Copy)]
pub struct TranslationArg<'a> {
    pub name: &'a str,
    pub value: &'a str,
}

impl<'a> TranslationArg<'a> {
    pub fn new(name: &'a str, value: &'a str) -> (r: Self)
        ensures
            r.name == name,
            r.value == value,
    {
        TranslationArg { name, value }
    }
}

/// The placeholder written for an argument name: `{ $name }`.
pub open spec fn placeholder(name: Seq<char>) -> Seq<char> {
    "{ $"@ + name + " }"@
}

/// The message after substituting each argument in turn, in the given order.
pub open spec fn apply_args(message: Seq<char>, args: Seq<TranslationArg<'_>>) -> Seq<char>
    decreases args.len(),
{
    if args.len() == 0 {
        message
    } else {
        replace_all(
            apply_args(message, args.drop_last()),
            placeholder(args.last().name@),
            args.last().value@,
        )
    }
}

/// The message found for a raw key, or the key itself when no catalog has it.
pub open spec fn translate_raw_spec(locale: BotLocale, key: Seq<char>) -> Seq<char> {
    match lookup_spec(locale, key) {
        Some(v) => v,
        None => key,
    }
}

/// The message of a typed key in a locale.
pub open spec fn translate_spec(locale: BotLocale, key: I18nKey) -> Seq<char> {
    translate_raw_spec(locale, key_text(key))
}

fn placeholder_text(name: &str) -> (r: String)
    ensures
        r@ == placeholder(name@),
{
    let mut t = String::from_str("{ $");
    t.append(name);
    t.append(" }");
    t
}

/// Substitutes the arguments into a message, in order (`str::replace` for each).
pub fn apply_translation_args(message: String, args: &[TranslationArg<'_>]) -> (r: String)
    ensures
        r@ == apply_args(message@, args@),
{
    let mut value = message;
    let mut i: usize = 0;
    assert(args@.take(0) =~= Seq::<TranslationArg<'_>>::empty());
    while i < args.len()
        invariant
            i <= args@.len(),
            value@ == apply_args(message@, args@.take(i as int)),
        decreases args@.len() - i,
    {
        let arg = args[i];
        let token = placeholder_text(arg.name);
        proof {
            reveal_strlit("{ $");
        }
        let current = chars_of(value.as_str());
        let pat = chars_of(token.as_str());
        let rep = chars_of(arg.value);
        let replaced = replace_chars(current.as_slice(), pat.as_slice(), rep.as_slice());
        value = string_from_chars(replaced.as_slice());
        assert(args@.take(i + 1).drop_last() =~= args@.take(i as int));
        i = i + 1;
    }
    assert(args@.take(i as int) =~= args@);
    value
}

/// The message of a raw catalog key, or the key itself when no catalog has it.
pub fn translate_raw(locale: BotLocale, key: &str) -> (r: String)
    ensures
        r@ == translate_raw_spec(locale, key@),
{
    match lookup(locale, key) {
        Some(v) => String::from_str(v),
        None => String::from_str(key),
    }
}

/// `translate_raw`, then the arguments substituted.
pub fn translate_raw_with_args(locale: BotLocale, key: &str, args: &[TranslationArg<'_>]) -> (r:
    String)
    ensures
        r@ == apply_args(translate_raw_spec(locale, key@), args@),
{
    apply_translation_args(translate_raw(locale, key), args)
}

pub fn translate(locale: BotLocale, key: I18nKey) -> (r: String)
    ensures
        r@ == translate_spec(locale, key),
{
    translate_raw(locale, key.as_str())
}

pub fn translate_with_args(locale: BotLocale, key: I18nKey, args: &[TranslationArg<'_>]) -> (r:
    String)
    ensures
        r@ == apply_args(translate_spec(locale, key), args@),
{
    apply_translation_args(translate(locale, key), args)
}

/// The message of a typed key with one argument substituted.
pub fn translate_with_arg(locale: BotLocale, key: I18nKey, name: &str, value: &str) -> (r: String)
    ensures
        r@ == replace_all(translate_spec(locale, key), placeholder(name@), value@),
{
    let arg = TranslationArg::new(name, value);
    let mut args: Vec<TranslationArg> = Vec::new();
    args.push(arg);
    let r = translate_with_args(locale, key, args.as_slice());
    proof {
        let a = args@;
        assert(a.drop_last() =~= Seq::<TranslationArg<'_>>::empty());
        assert(apply_args(translate_spec(locale, key), a.drop_last()) == translate_spec(locale, key));
    }
    r
}

/// Without arguments, a rendered message is the plain message.
pub proof fn lemma_no_args_is_plain(locale: BotLocale, key: I18nKey)
    ensures
        apply_args(translate_spec(locale, key), Seq::<TranslationArg<'_>>::empty()) == translate_spec(
            locale,
            key,
        ),
{
}

} // verus!
