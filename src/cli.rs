//! The command line: an optional command word, then its arguments or the tokens to
//! convert.
use vstd::prelude::*;
use vstd::string::*;

use crate::patterns::texts;
use crate::text::same_text;

verus! {

/// A command that the first argument can name instead of a token to convert.
#[derive(Clone, Copy, Debug, PartialEq, Eq, Structural)]
pub enum Action {
    Help,
    SetTz,
    ClearTz,
    AddToken,
    RemoveToken,
    ViewTokens,
}

/// The command a word names, if any.
pub open spec fn action_named(word: Seq<char>) -> Option<Action> {
    if word == "help"@ {
        Some(Action::Help)
    } else if word == "set-tz"@ {
        Some(Action::SetTz)
    } else if word == "clear-tz"@ {
        Some(Action::ClearTz)
    } else if word == "add-token"@ {
        Some(Action::AddToken)
    } else if word == "remove-token"@ {
        Some(Action::RemoveToken)
    } else if word == "view-tokens"@ {
        Some(Action::ViewTokens)
    } else {
        None
    }
}

/// The failure of a word that names no command.
pub const INVALID_ACTION: &'static str = "Invalid action";

/// The failure of a command line with no argument after the program name.
pub const MISSING_ARGUMENT: &'static str = "Must include at least one argument!";

impl Action {
    /// The command that `input` names.
    pub fn from_string(input: String) -> (r: Result<Action, &'static str>)
        ensures
            match action_named(input@) {
                Some(a) => r == Ok::<Action, &'static str>(a),
                None => r == Err::<Action, &'static str>(INVALID_ACTION),
            },
    {
        let word = input.as_str();
        if same_text(word, "help") {
            Ok(Action::Help)
        } else if same_text(word, "set-tz") {
            Ok(Action::SetTz)
        } else if same_text(word, "clear-tz") {
            Ok(Action::ClearTz)
        } else if same_text(word, "add-token") {
            Ok(Action::AddToken)
        } else if same_text(word, "remove-token") {
            Ok(Action::RemoveToken)
        } else if same_text(word, "view-tokens") {
            Ok(Action::ViewTokens)
        } else {
            Err(INVALID_ACTION)
        }
    }
}

/// A command line split into its command, if any, and the arguments after it.
pub struct ParsedInput {
    pub action: Option<Action>,
    pub second_arg: Option<String>,
    pub other_args: Vec<String>,
}

/// The arguments after the command word, or after the program name where there is
/// none.
pub open spec fn argument_list(input: Seq<Seq<char>>) -> Seq<Seq<char>> {
    match action_named(input[1]) {
        Some(_) => input.subrange(2, input.len() as int),
        None => input.subrange(1, input.len() as int),
    }
}

/// The command of a command line (the program name first), the first argument after
/// it, and the rest.
pub open spec fn input_parts(input: Seq<Seq<char>>) -> (Option<Action>, Option<Seq<char>>, Seq<Seq<char>>) {
    let args = argument_list(input);
    if args.len() > 0 {
        (action_named(input[1]), Some(args[0]), args.drop_first())
    } else {
        (action_named(input[1]), None, args)
    }
}

impl ParsedInput {
    /// The command, the first argument after it, and the rest.
    pub open spec fn parts(&self) -> (Option<Action>, Option<Seq<char>>, Seq<Seq<char>>) {
        (
            self.action,
            match self.second_arg {
                Some(s) => Some(s@),
                None => None,
            },
            texts(self.other_args@),
        )
    }

    /// Every argument after the command, in order.
    pub fn get_non_action_args(&self) -> (r: Vec<String>)
        ensures
            texts(r@) == match self.second_arg {
                Some(s) => seq![s@] + texts(self.other_args@),
                None => texts(self.other_args@),
            },
    {
        let mut args: Vec<String> = match &self.second_arg {
            Some(arg) => vec![arg.clone()],
            None => Vec::new(),
        };
        let ghost first = texts(args@);
        let mut i: usize = 0;
        while i < self.other_args.len()
            invariant
                i <= self.other_args.len(),
                texts(args@) == first + texts(self.other_args@).take(i as int),
            decreases self.other_args.len() - i,
        {
            let ghost prev = args@;
            args.push(self.other_args[i].clone());
            assert(texts(args@) =~= texts(prev).push(self.other_args@[i as int]@));
            assert(texts(self.other_args@).take(i + 1) =~= texts(self.other_args@).take(i as int).push(
                self.other_args@[i as int]@,
            ));
            i = i + 1;
        }
        assert(texts(self.other_args@).take(i as int) =~= texts(self.other_args@));
        match &self.second_arg {
            Some(s) => {
                assert(first =~= seq![s@]);
            },
            None => {
                assert(first =~= Seq::<Seq<char>>::empty());
            },
        }
        args
    }
}

/// Copies `v[from..]`.
fn tail(v: &Vec<String>, from: usize) -> (r: Vec<String>)
    requires
        from <= v.len(),
    ensures
        texts(r@) == texts(v@).subrange(from as int, v.len() as int),
{
    let mut r: Vec<String> = Vec::new();
    let mut i: usize = from;
    while i < v.len()
        invariant
            from <= i <= v.len(),
            texts(r@) == texts(v@).subrange(from as int, i as int),
        decreases v.len() - i,
    {
        let ghost prev = r@;
        r.push(v[i].clone());
        assert(texts(r@) =~= texts(prev).push(v@[i as int]@));
        assert(texts(v@).subrange(from as int, i + 1) =~= texts(v@).subrange(from as int, i as int).push(
            v@[i as int]@,
        ));
        i = i + 1;
    }
    r
}

/// Splits the command line `input` (the program name first): where the first
/// argument names a command, the command and the arguments after it; otherwise no
/// command, and every argument is a token to convert. Fails where there is no
/// argument at all.
pub fn parse_input(input: Vec<String>) -> (r: Result<ParsedInput, &'static str>)
    ensures
        input.len() < 2 ==> r == Err::<ParsedInput, &'static str>(MISSING_ARGUMENT),
        input.len() >= 2 ==> (r matches Ok(p) && p.parts() == input_parts(texts(input@))),
{
    if input.len() < 2 {
        return Err(MISSING_ARGUMENT);
    }
    let action = match Action::from_string(input[1].clone()) {
        Ok(a) => Some(a),
        Err(_) => None,
    };
    let first: usize = if action.is_some() {
        2
    } else {
        1
    };
    let second_arg = if first < input.len() {
        Some(input[first].clone())
    } else {
        None
    };
    let rest: usize = if first < input.len() {
        first + 1
    } else {
        first
    };
    let other_args = tail(&input, rest);
    let ghost args = argument_list(texts(input@));
    proof {
        assert(texts(input@)[1] == input@[1]@);
        assert(args =~= texts(input@).subrange(first as int, input.len() as int));
        if first < input.len() {
            assert(args.drop_first() =~= texts(input@).subrange(rest as int, input.len() as int));
        } else {
            assert(args =~= texts(input@).subrange(rest as int, input.len() as int));
        }
    }
    Ok(ParsedInput { action, second_arg, other_args })
}

} // verus!
