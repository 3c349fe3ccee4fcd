//! Tokens: lexemes with their syntax category, as the tokenizer yields them.
use vstd::prelude::*;
use luthor::token::Category as Lexed;

verus! {

/// The classes that the tokenizer sorts lexemes into.
#[derive(Clone, Copy, Debug, PartialEq, Eq, Structural)]
pub enum Category {
    Whitespace,
    Identifier,
    Keyword,
    Brace,
    Bracket,
    Parenthesis,
    Operator,
    Integer,
    Float,
    String,
    Boolean,
    Text,
    Comment,
    Function,
    Method,
    Call,
    Literal,
    Key,
}

/// A lexeme and category pairing.
#[derive(Clone, Debug, PartialEq, Eq)]
pub struct Token {
    pub lexeme: String,
    pub category: Category,
}

/// A token as a value: the characters of its lexeme, and its category.
pub struct TokenView {
    pub lexeme: Seq<char>,
    pub category: Category,
}

impl View for Token {
    type V = TokenView;

    open spec fn view(&self) -> TokenView {
        TokenView { lexeme: self.lexeme@, category: self.category }
    }
}

/// The tokens of a sequence, each as a value.
pub open spec fn token_views(tokens: Seq<Token>) -> Seq<TokenView> {
    tokens.map_values(|t: Token| t@)
}

/// The lexemes of the first `count` tokens, joined.
pub open spec fn joined_lexemes(tokens: Seq<TokenView>, count: int) -> Seq<char>
    decreases count,
{
    if count <= 0 {
        Seq::empty()
    } else {
        joined_lexemes(tokens, count - 1) + tokens[count - 1].lexeme
    }
}

/// Whether a character separates words for the lexer: a space or a line
/// break.
pub open spec fn is_separator(c: char) -> bool {
    c == ' ' || c == '\n'
}

/// The tokens of a text: its longest runs of separators, as whitespace,
/// and of other characters, as text, in the order of the text.
pub open spec fn lexed(text: Seq<char>) -> Seq<TokenView>
    decreases text.len(),
{
    if text.len() == 0 {
        Seq::empty()
    } else {
        let before = lexed(text.drop_last());
        let c = text.last();
        if before.len() > 0 && is_separator(before.last().lexeme.last()) == is_separator(c) {
            before.drop_last().push(
                TokenView { lexeme: before.last().lexeme.push(c), category: before.last().category },
            )
        } else {
            before.push(
                TokenView {
                    lexeme: seq![c],
                    category: if is_separator(c) {
                        Category::Whitespace
                    } else {
                        Category::Text
                    },
                },
            )
        }
    }
}

/// Joining the first lexemes of a sequence reads no further than those
/// lexemes: two sequences that agree on them join to the same text.
pub proof fn lemma_joined_prefix(a: Seq<TokenView>, b: Seq<TokenView>, count: int)
    requires
        0 <= count <= a.len(),
        count <= b.len(),
        forall|i: int| 0 <= i < count ==> a[i] == b[i],
    ensures
        joined_lexemes(a, count) == joined_lexemes(b, count),
    decreases count,
{
    if count > 0 {
        lemma_joined_prefix(a, b, count - 1);
    }
}

/// The tokens of a text cover it: no lexeme is empty, and the lexemes join
/// to the text. A token is whitespace exactly when it is made of
/// separators.
pub proof fn lemma_lexed_covers(text: Seq<char>)
    ensures
        forall|i: int| 0 <= i < lexed(text).len() ==> (#[trigger] lexed(text)[i]).lexeme.len() > 0,
        forall|i: int|
            0 <= i < lexed(text).len() ==> ((#[trigger] lexed(text)[i]).category
                == Category::Whitespace <==> is_separator(lexed(text)[i].lexeme.last())),
        joined_lexemes(lexed(text), lexed(text).len() as int) == text,
    decreases text.len(),
{
    if text.len() > 0 {
        let before = lexed(text.drop_last());
        let now = lexed(text);
        let c = text.last();
        let n = before.len() as int;
        lemma_lexed_covers(text.drop_last());
        if n > 0 && is_separator(before.last().lexeme.last()) == is_separator(c) {
            lemma_joined_prefix(now, before, n - 1);
            assert(joined_lexemes(now, n) =~= joined_lexemes(before, n).push(c));
            assert(text.drop_last().push(c) =~= text);
        } else {
            lemma_joined_prefix(now, before, n);
            assert(joined_lexemes(now, n + 1) =~= joined_lexemes(before, n).push(c));
            assert(text.drop_last().push(c) =~= text);
        }
    }
}

/// The last token of a text ends with the last character of the text.
pub proof fn lemma_lexed_last(text: Seq<char>)
    requires
        text.len() > 0,
    ensures
        lexed(text).len() > 0,
        lexed(text).last().lexeme.len() > 0,
        lexed(text).last().lexeme.last() == text.last(),
{
}

/// A run of characters of one kind, behind a text that ends with a
/// character of the other kind or behind no text at all, is one more
/// token: whitespace if the run is made of separators, text if it is not.
pub proof fn lemma_lexed_run(text: Seq<char>, run: Seq<char>)
    requires
        run.len() > 0,
        forall|i: int|
            0 <= i < run.len() ==> is_separator(#[trigger] run[i]) == is_separator(run[0]),
        text.len() > 0 ==> is_separator(text.last()) != is_separator(run[0]),
    ensures
        lexed(text + run) == lexed(text).push(
            TokenView {
                lexeme: run,
                category: if is_separator(run[0]) {
                    Category::Whitespace
                } else {
                    Category::Text
                },
            },
        ),
    decreases run.len(),
{
    let whole = text + run;
    assert(whole.drop_last() =~= text + run.drop_last());
    assert(whole.last() == run.last());
    if run.len() == 1 {
        assert(text + run.drop_last() =~= text);
        assert(run =~= seq![run[0]]);
        if text.len() > 0 {
            lemma_lexed_last(text);
        }
    } else {
        let shorter = run.drop_last();
        assert(shorter[0] == run[0]);
        assert forall|i: int| 0 <= i < shorter.len() implies is_separator(#[trigger] shorter[i])
            == is_separator(shorter[0]) by {
            assert(shorter[i] == run[i]);
        }
        lemma_lexed_run(text, shorter);
        let before = lexed(text + shorter);
        assert(before.last().lexeme == shorter);
        assert(shorter.last() == run[run.len() - 2]);
        assert(before.drop_last() =~= lexed(text));
        assert(shorter.push(run.last()) =~= run);
    }
}

/// `luthor::lexers::default::lex`: splits a text into its longest runs of
/// spaces and line breaks, which come back as whitespace, and of other
/// characters, which come back as text; each with its lexeme and the
/// category of the same name.
#[verifier::external_body]
pub(crate) fn lex(data: &str) -> (r: Vec<Token>)
    ensures
        token_views(r@) == lexed(data@),
{
    luthor::lexers::default::lex(data).into_iter().map(|t| Token { lexeme: t.lexeme, category: match t.category {
        Lexed::Whitespace => Category::Whitespace, Lexed::Identifier => Category::Identifier,
        Lexed::Keyword => Category::Keyword, Lexed::Brace => Category::Brace,
        Lexed::Bracket => Category::Bracket, Lexed::Parenthesis => Category::Parenthesis,
        Lexed::Operator => Category::Operator, Lexed::Integer => Category::Integer,
        Lexed::Float => Category::Float, Lexed::String => Category::String,
        Lexed::Boolean => Category::Boolean, Lexed::Text => Category::Text,
        Lexed::Comment => Category::Comment, Lexed::Function => Category::Function,
        Lexed::Method => Category::Method, Lexed::Call => Category::Call,
        Lexed::Literal => Category::Literal, Lexed::Key => Category::Key,
    } }).collect()
}

} // verus!
