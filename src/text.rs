use vstd::prelude::*;
use vstd::string::StringExecFns;

verus! {

/// The strings of `words` with `sep` between each neighbouring pair.
pub open spec fn joined(words: Seq<Seq<char>>, sep: Seq<char>) -> Seq<char>
    decreases words.len(),
{
    if words.len() == 0 {
        Seq::empty()
    } else if words.len() == 1 {
        words[0]
    } else {
        joined(words.drop_last(), sep) + sep + words.last()
    }
}

/// The views of a sequence of strings.
pub open spec fn texts(v: Seq<String>) -> Seq<Seq<char>> {
    v.map_values(|s: String| s@)
}

/// The commit message for a command: `run: ` and then the command's words
/// separated by single spaces.
pub open spec fn message_of(command: Seq<Seq<char>>) -> Seq<char> {
    "run: "@ + joined(command, " "@)
}

/// The words of `command` with a single space between neighbours, in order.
///
/// Relies on `itertools::join`: it writes the first item, then for each
/// further item the separator and that item, each through `Display`, which
/// for a `String` writes it unchanged.
#[verifier::external_body]
fn join_words(command: &Vec<String>, sep: &str) -> (r: String)
    ensures
        r@ == joined(texts(command@), sep@),
{
    itertools::join(command, sep)
}

/// A single word joins to itself.
pub proof fn lemma_joined_single(w: Seq<char>, sep: Seq<char>)
    ensures
        joined(seq![w], sep) == w,
{
}

/// The commit message of a command run without a shell is `run: ` followed
/// by the program and its arguments, in order, separated by single spaces.
/// Run through a shell, the one command string `C` gives `run: C` exactly.
pub fn commit_message(shell: bool, command: &Vec<String>) -> (r: String)
    requires
        command@.len() >= 1,
        shell ==> command@.len() == 1,
    ensures
        r@ == message_of(texts(command@)),
        shell ==> r@ == "run: "@ + command@[0]@,
{
    let mut r = "run: ".to_owned();
    if shell {
        r.append(command[0].as_str());
        proof {
            assert(texts(command@) =~= seq![command@[0]@]);
            lemma_joined_single(command@[0]@, " "@);
        }
    } else {
        let words = join_words(command, " ");
        r.append(words.as_str());
    }
    r
}

/// The text of the confirmation prompt for a commit message.
pub open spec fn prompt_of(message: Seq<char>) -> Seq<char> {
    "commit with message `"@ + message + "`"@
}

/// The confirmation prompt that shows `message`.
pub fn confirmation_prompt(message: &String) -> (r: String)
    ensures
        r@ == prompt_of(message@),
{
    let mut r = "commit with message `".to_owned();
    r.append(message.as_str());
    r.append("`");
    r
}

} // verus!
