//! The terminal command grammar.
//!
//! A line is split on ASCII whitespace; the first token names a command,
//! matched ignoring ASCII case; the remaining tokens are its arguments.
//! `help` renders an overview or, given a command name, that command's
//! usage. Unknown commands earn a fixed "Unrecognised command" response.

use vstd::prelude::*;
use vstd::string::StrSliceExecFns;
use vstd::string::StringExecFns;
use crate::text::{eq_ignore_ascii_case, eq_ignore_case, str_eq};

verus! {

/// Whether `c` is ASCII whitespace (space, tab, line feed, form feed,
/// carriage return), the separators the tokenizer splits on.
pub open spec fn is_ws(c: char) -> bool {
    c as int == 32 || c as int == 9 || c as int == 10 || c as int == 12 || c as int == 13
}

/// The length of the leading run of non-whitespace characters.
pub open spec fn token_end(s: Seq<char>) -> nat
    decreases s.len(),
{
    if s.len() == 0 || is_ws(s[0]) {
        0
    } else {
        1 + token_end(s.drop_first())
    }
}

/// The leading token is never longer than the line.
pub proof fn lemma_token_end_le(s: Seq<char>)
    ensures
        token_end(s) <= s.len(),
    decreases s.len(),
{
    if s.len() != 0 && !is_ws(s[0]) {
        lemma_token_end_le(s.drop_first());
    }
}

/// The ASCII-whitespace-separated tokens of a line, in order.
pub open spec fn spec_tokens(s: Seq<char>) -> Seq<Seq<char>>
    decreases s.len(),
    via spec_tokens_dec
{
    if s.len() == 0 {
        Seq::empty()
    } else if is_ws(s[0]) {
        spec_tokens(s.drop_first())
    } else {
        let k = token_end(s);
        seq![s.subrange(0, k as int)] + spec_tokens(s.subrange(k as int, s.len() as int))
    }
}

#[via_fn]
proof fn spec_tokens_dec(s: Seq<char>) {
    if s.len() != 0 && !is_ws(s[0]) {
        lemma_token_end_le(s);
    }
}

/// The views of a vector of owned tokens.
pub open spec fn token_views(ts: Seq<String>) -> Seq<Seq<char>> {
    ts.map_values(|t: String| t@)
}

/// The leading run of non-whitespace characters ends exactly at the first
/// whitespace character (or the end of the sequence).
proof fn lemma_token_end_at(s: Seq<char>, k: int)
    requires
        0 <= k <= s.len(),
        forall|m: int| 0 <= m < k ==> !is_ws(#[trigger] s[m]),
        k == s.len() || is_ws(s[k]),
    ensures
        token_end(s) == k,
    decreases s.len(),
{
    if s.len() == 0 {
    } else if is_ws(s[0]) {
        assert(k == 0);
    } else {
        assert(k >= 1);
        let t = s.drop_first();
        assert(forall|m: int| 0 <= m < k - 1 ==> !is_ws(#[trigger] t[m]));
        lemma_token_end_at(t, k - 1);
    }
}

/// Splits a line into its ASCII-whitespace-separated tokens.
#[verifier::loop_isolation(false)]
pub fn tokenize(line: &str) -> (r: Vec<String>)
    ensures
        token_views(r@) == spec_tokens(line@),
{
    let len = line.unicode_len();
    let mut toks: Vec<String> = Vec::new();
    let mut i: usize = 0;
    proof {
        assert(line@.subrange(0, len as int) =~= line@);
        assert(token_views(toks@) + spec_tokens(line@) =~= spec_tokens(line@));
    }
    while i < len
        invariant
            0 <= i <= len,
            spec_tokens(line@) =~= token_views(toks@) + spec_tokens(
                line@.subrange(i as int, len as int),
            ),
        decreases len - i,
    {
        let c = line.get_char(i);
        let cv = c as u32;
        if cv == 32 || cv == 9 || cv == 10 || cv == 12 || cv == 13 {
            proof {
                let rest = line@.subrange(i as int, len as int);
                assert(is_ws(rest[0]));
                assert(rest.drop_first() =~= line@.subrange(i as int + 1, len as int));
            }
            i = i + 1;
        } else {
            let mut j: usize = i + 1;
            #[verifier::loop_isolation(true)]
            while j < len
                invariant
                    len == line@.len(),
                    i < j <= len,
                    forall|m: int| i <= m < j ==> !is_ws(#[trigger] line@[m]),
                ensures
                    i < j <= len,
                    forall|m: int| i <= m < j ==> !is_ws(#[trigger] line@[m]),
                    j == len || is_ws(line@[j as int]),
                decreases len - j,
            {
                let c2 = line.get_char(j);
                let cv2 = c2 as u32;
                if cv2 == 32 || cv2 == 9 || cv2 == 10 || cv2 == 12 || cv2 == 13 {
                    break ;
                }
                j = j + 1;
            }
            let tok = line.substring_char(i, j).to_owned();
            proof {
                let rest = line@.subrange(i as int, len as int);
                assert(!is_ws(rest[0]));
                assert(forall|m: int| 0 <= m < j - i ==> !is_ws(#[trigger] rest[m]));
                assert(j - i == rest.len() || is_ws(rest[j - i]));
                lemma_token_end_at(rest, j - i);
                assert(rest.subrange(0, j - i) =~= line@.subrange(i as int, j as int));
                assert(rest.subrange(j - i, rest.len() as int) =~= line@.subrange(
                    j as int,
                    len as int,
                ));
                assert(tok@ == line@.subrange(i as int, j as int));
            }
            toks.push(tok);
            proof {
                assert(token_views(toks@) =~= token_views(toks@.drop_last()).push(
                    line@.subrange(i as int, j as int),
                ));
            }
            i = j;
        }
    }
    proof {
        assert(line@.subrange(len as int, len as int) =~= Seq::<char>::empty());
        assert(token_views(toks@) =~= spec_tokens(line@));
    }
    toks
}

/// One command of the grammar: its name, an argument synopsis for help
/// output, and a sentence of help text.
pub struct UiCommand {
    pub help_text: String,
    pub name: String,
    pub args: String,
}

/// A titled group of commands, rendered together in the help overview.
pub struct UiGroup {
    pub help_text: String,
    pub command: Vec<UiCommand>,
}

/// The whole command grammar: overview text plus the command groups.
pub struct Ui {
    pub help_text: String,
    pub group: Vec<UiGroup>,
}

/// How a line was interpreted: a command to act on, a response to print,
/// or nothing.
#[derive(Debug)]
pub enum CommandInterpretation {
    Action { command: String, args: Vec<String> },
    Response { prompt: String },
    Noop,
}

impl UiCommand {
    /// Renders this command's own help: its usage line, then its help
    /// text.
    pub fn help(&self) -> (r: String)
        ensures
            r@ == command_help(*self),
    {
        let mut out = String::new();
        out.append(self.name.as_str());
        out.append(" ");
        out.append(self.args.as_str());
        out.append("\n\n");
        out.append(self.help_text.as_str());
        out.append("\n");
        out
    }

    /// Interprets this command applied to the remaining tokens: the
    /// action carrying them (the grammar has no nested subcommands).
    pub fn interpret_subcommand(&self, args: Vec<String>) -> (r: CommandInterpretation)
        ensures
            r matches CommandInterpretation::Action { command, args: a } && command@
                == self.name@ && a == args,
    {
        CommandInterpretation::Action { command: self.name.clone(), args }
    }
}

/// The first command in `cmds` whose name equals `tok` ignoring ASCII case.
pub open spec fn find_in_commands(cmds: Seq<UiCommand>, tok: Seq<char>) -> Option<UiCommand>
    decreases cmds.len(),
{
    if cmds.len() == 0 {
        None
    } else if eq_ignore_case(cmds[0].name@, tok) {
        Some(cmds[0])
    } else {
        find_in_commands(cmds.drop_first(), tok)
    }
}

/// The first command across the groups, in order, whose name equals `tok`
/// ignoring ASCII case.
pub open spec fn find_in_groups(groups: Seq<UiGroup>, tok: Seq<char>) -> Option<UiCommand>
    decreases groups.len(),
{
    if groups.len() == 0 {
        None
    } else {
        match find_in_commands(groups[0].command@, tok) {
            Some(c) => Some(c),
            None => find_in_groups(groups.drop_first(), tok),
        }
    }
}

/// The usage line of one command in the help overview.
pub open spec fn usage_line(c: UiCommand) -> Seq<char> {
    "    "@ + c.name@ + " "@ + c.args@ + "\n"@
}

/// The usage lines of a command list.
pub open spec fn commands_overview(cs: Seq<UiCommand>) -> Seq<char>
    decreases cs.len(),
{
    if cs.len() == 0 {
        Seq::empty()
    } else {
        usage_line(cs[0]) + commands_overview(cs.drop_first())
    }
}

/// One group's section of the help overview.
pub open spec fn group_overview(g: UiGroup) -> Seq<char> {
    "\n"@ + g.help_text@ + "\n"@ + commands_overview(g.command@)
}

/// All groups' sections of the help overview.
pub open spec fn groups_overview(gs: Seq<UiGroup>) -> Seq<char>
    decreases gs.len(),
{
    if gs.len() == 0 {
        Seq::empty()
    } else {
        group_overview(gs[0]) + groups_overview(gs.drop_first())
    }
}

/// The full help overview.
pub open spec fn overview(ui: Ui) -> Seq<char> {
    ui.help_text@ + "\n"@ + groups_overview(ui.group@)
}

/// One command's own help text.
pub open spec fn command_help(c: UiCommand) -> Seq<char> {
    c.name@ + " "@ + c.args@ + "\n\n"@ + c.help_text@ + "\n"@
}

/// What `help` prints for the given arguments: the overview for none, a
/// command's help for a known name, a complaint otherwise.
pub open spec fn spec_help(ui: Ui, args: Seq<Seq<char>>) -> Seq<char> {
    if args.len() == 0 {
        overview(ui)
    } else {
        match find_in_groups(ui.group@, args[0]) {
            Some(c) => if args.len() > 1 {
                "Unrecognised subcommand "@ + args[1] + "\n"@
            } else {
                command_help(c)
            },
            None => "Unrecognised command "@ + args[0] + "\n"@,
        }
    }
}

/// What the raw interpretation of a line yields, before `help` is
/// answered: nothing for a blank line, the named command with its
/// arguments, or the fixed "unrecognised" response.
pub open spec fn spec_interpret_inner(ui: Ui, line: Seq<char>, r: CommandInterpretation) -> bool {
    let ts = spec_tokens(line);
    if ts.len() == 0 {
        r is Noop
    } else {
        match find_in_groups(ui.group@, ts[0]) {
            Some(cmd) => r matches CommandInterpretation::Action { command, args } && command@
                == cmd.name@ && token_views(args@) == ts.drop_first(),
            None => r matches CommandInterpretation::Response { prompt } && prompt@
                == "Unrecognised command. Use `help` for more information.\n"@,
        }
    }
}

/// What interpreting a line yields: nothing for a blank line, the named
/// command with its arguments, or the fixed "unrecognised" response.
pub open spec fn spec_interpret(ui: Ui, line: Seq<char>, r: CommandInterpretation) -> bool {
    let ts = spec_tokens(line);
    if ts.len() == 0 {
        r is Noop
    } else {
        match find_in_groups(ui.group@, ts[0]) {
            Some(cmd) => {
                if cmd.name@ == "help"@ {
                    r matches CommandInterpretation::Response { prompt } && prompt@ == spec_help(
                        ui,
                        ts.drop_first(),
                    )
                } else {
                    r matches CommandInterpretation::Action { command, args } && command@
                        == cmd.name@ && token_views(args@) == ts.drop_first()
                }
            },
            None => r matches CommandInterpretation::Response { prompt } && prompt@
                == "Unrecognised command. Use `help` for more information.\n"@,
        }
    }
}

impl Ui {
    /// Looks a token up among the groups' commands, first match wins,
    /// names compared ignoring ASCII case.
    #[verifier::loop_isolation(false)]
    fn find_command(&self, tok: &str) -> (r: Option<&UiCommand>)
        ensures
            match r {
                Some(c) => find_in_groups(self.group@, tok@) == Some(*c),
                None => find_in_groups(self.group@, tok@) is None,
            },
    {
        let ngroups = self.group.len();
        let mut g: usize = 0;
        proof {
            assert(self.group@.subrange(0, ngroups as int) =~= self.group@);
        }
        while g < ngroups
            invariant
                0 <= g <= ngroups == self.group@.len(),
                find_in_groups(self.group@, tok@) == find_in_groups(
                    self.group@.subrange(g as int, ngroups as int),
                    tok@,
                ),
            decreases ngroups - g,
        {
            let cmds = &self.group[g].command;
            let ncmds = cmds.len();
            let mut c: usize = 0;
            proof {
                assert(self.group@[g as int].command@.subrange(0, ncmds as int) =~= self.group@[
                    g as int].command@);
            }
            while c < ncmds
                invariant
                    0 <= g < ngroups == self.group@.len(),
                    0 <= c <= ncmds == self.group@[g as int].command@.len(),
                    cmds@ == self.group@[g as int].command@,
                    find_in_groups(self.group@, tok@) == find_in_groups(
                        self.group@.subrange(g as int, ngroups as int),
                        tok@,
                    ),
                    find_in_commands(self.group@[g as int].command@, tok@) == find_in_commands(
                        self.group@[g as int].command@.subrange(c as int, ncmds as int),
                        tok@,
                    ),
                decreases ncmds - c,
            {
                let ghost suffix = self.group@[g as int].command@.subrange(c as int, ncmds as int);
                if eq_ignore_ascii_case(cmds[c].name.as_str(), tok) {
                    proof {
                        assert(suffix[0] == self.group@[g as int].command@[c as int]);
                        let gsuf = self.group@.subrange(g as int, ngroups as int);
                        assert(gsuf[0] == self.group@[g as int]);
                    }
                    return Some(&cmds[c]);
                }
                proof {
                    assert(suffix[0] == self.group@[g as int].command@[c as int]);
                    assert(suffix.drop_first() =~= self.group@[g as int].command@.subrange(
                        c as int + 1,
                        ncmds as int,
                    ));
                }
                c = c + 1;
            }
            proof {
                let gsuf = self.group@.subrange(g as int, ngroups as int);
                assert(gsuf[0] == self.group@[g as int]);
                assert(self.group@[g as int].command@.subrange(
                    ncmds as int,
                    ncmds as int,
                ) =~= Seq::<UiCommand>::empty());
                assert(gsuf.drop_first() =~= self.group@.subrange(g as int + 1, ngroups as int));
            }
            g = g + 1;
        }
        proof {
            assert(self.group@.subrange(
                ngroups as int,
                ngroups as int,
            ) =~= Seq::<UiGroup>::empty());
        }
        None
    }

    /// Renders the help overview: the grammar's own text, then each group
    /// title with its commands' usage lines.
    #[verifier::loop_isolation(false)]
    #[verifier::rlimit(60)]
    fn render_overview(&self) -> (r: String)
        ensures
            r@ == overview(*self),
    {
        let mut out = String::new();
        out.append(self.help_text.as_str());
        out.append("\n");
        let ngroups = self.group.len();
        let mut g: usize = 0;
        while g < ngroups
            invariant
                0 <= g <= ngroups == self.group@.len(),
                out@ == self.help_text@ + "\n"@ + groups_overview(
                    self.group@.subrange(0, g as int),
                ) ,
        decreases ngroups - g,
    {
            let group = &self.group[g];
            out.append("\n");
            out.append(group.help_text.as_str());
            out.append("\n");
            let ncmds = group.command.len();
            let mut c: usize = 0;
            while c < ncmds
                invariant
                    0 <= g < ngroups == self.group@.len(),
                    0 <= c <= ncmds == self.group@[g as int].command@.len(),
                    group.help_text@ == self.group@[g as int].help_text@,
                    group.command@ == self.group@[g as int].command@,
                    out@ == self.help_text@ + "\n"@ + groups_overview(
                        self.group@.subrange(0, g as int),
                    ) + "\n"@ + self.group@[g as int].help_text@ + "\n"@ + commands_overview(
                        self.group@[g as int].command@.subrange(0, c as int),
                    ),
                decreases ncmds - c,
            {
                let cmd = &group.command[c];
                out.append("    ");
                out.append(cmd.name.as_str());
                out.append(" ");
                out.append(cmd.args.as_str());
                out.append("\n");
                proof {
                    lemma_commands_overview_snoc(
                        self.group@[g as int].command@.subrange(0, c as int + 1),
                    );
                    assert(self.group@[g as int].command@.subrange(0, c as int + 1).drop_last()
                        =~= self.group@[g as int].command@.subrange(0, c as int));
                }
                c = c + 1;
            }
            proof {
                assert(self.group@[g as int].command@.subrange(0, ncmds as int) =~= self.group@[
                    g as int].command@);
                lemma_groups_overview_snoc(self.group@.subrange(0, g as int + 1));
                assert(self.group@.subrange(0, g as int + 1).drop_last() =~= self.group@.subrange(
                    0,
                    g as int,
                ));
            }
            g = g + 1;
        }
        proof {
            assert(self.group@.subrange(0, ngroups as int) =~= self.group@);
        }
        out
    }

    /// Renders what `help` prints for the given arguments.
    fn help(&self, args: &Vec<String>, from: usize) -> (r: String)
        requires
            from <= args@.len(),
        ensures
            r@ == spec_help(*self, token_views(args@).subrange(from as int, args@.len() as int)),
    {
        let ghost rest = token_views(args@).subrange(from as int, args@.len() as int);
        if from == args.len() {
            self.render_overview()
        } else {
            proof {
                assert(rest[0] == args@[from as int]@);
            }
            match self.find_command(args[from].as_str()) {
                Some(cmd) => {
                    if from + 1 < args.len() {
                        proof {
                            assert(rest[1] == args@[from as int + 1]@);
                        }
                        let mut out = String::from_str("Unrecognised subcommand ");
                        out.append(args[from + 1].as_str());
                        out.append("\n");
                        out
                    } else {
                        cmd.help()
                    }
                },
                None => {
                    let mut out = String::from_str("Unrecognised command ");
                    out.append(args[from].as_str());
                    out.append("\n");
                    out
                },
            }
        }
    }

    /// Interprets one input line without answering `help`: a blank line
    /// is a no-op; a known command becomes an action carrying the
    /// remaining tokens; an unknown command earns the fixed "Unrecognised
    /// command" response.
    fn interpret_command_inner(&self, line: &str) -> (r: CommandInterpretation)
        ensures
            spec_interpret_inner(*self, line@, r),
    {
        let toks = tokenize(line);
        if toks.len() == 0 {
            return CommandInterpretation::Noop;
        }
        proof {
            assert(spec_tokens(line@)[0] == toks@[0]@);
        }
        match self.find_command(toks[0].as_str()) {
            Some(cmd) => {
                let mut args: Vec<String> = Vec::new();
                let ntoks = toks.len();
                let mut k: usize = 1;
                while k < ntoks
                    invariant
                        1 <= k <= ntoks == toks@.len(),
                        token_views(args@) =~= token_views(toks@).subrange(1, k as int),
                    decreases ntoks - k,
                {
                    args.push(toks[k].clone());
                    proof {
                        assert(token_views(args@) =~= token_views(args@.drop_last()).push(
                            toks@[k as int]@,
                        ));
                        assert(token_views(toks@).subrange(1, k as int + 1) =~= token_views(
                            toks@,
                        ).subrange(1, k as int).push(toks@[k as int]@));
                    }
                    k = k + 1;
                }
                proof {
                    assert(token_views(toks@).subrange(1, ntoks as int) =~= spec_tokens(
                        line@,
                    ).drop_first());
                }
                cmd.interpret_subcommand(args)
            },
            None => {
                CommandInterpretation::Response {
                    prompt: String::from_str(
                        "Unrecognised command. Use `help` for more information.\n",
                    ),
                }
            },
        }
    }

    /// Interprets one input line: as the raw interpretation, except that
    /// `help` is answered directly with the help text its arguments name.
    pub fn interpret_command(&self, line: &str) -> (r: CommandInterpretation)
        ensures
            spec_interpret(*self, line@, r),
    {
        let res = self.interpret_command_inner(line);
        match res {
            CommandInterpretation::Action { command, args } => {
                if str_eq(command.as_str(), "help") {
                    let prompt = self.help(&args, 0);
                    proof {
                        assert(token_views(args@).subrange(0, args@.len() as int) =~= token_views(
                            args@,
                        ));
                    }
                    CommandInterpretation::Response { prompt }
                } else {
                    CommandInterpretation::Action { command, args }
                }
            },
            CommandInterpretation::Response { prompt } => CommandInterpretation::Response {
                prompt,
            },
            CommandInterpretation::Noop => CommandInterpretation::Noop,
        }
    }
}

/// Appending one command extends the overview by its usage line.
proof fn lemma_commands_overview_snoc(cs: Seq<UiCommand>)
    requires
        cs.len() >= 1,
    ensures
        commands_overview(cs) == commands_overview(cs.drop_last()) + usage_line(cs.last()),
    decreases cs.len(),
{
    if cs.len() == 1 {
        assert(cs.drop_last() =~= Seq::<UiCommand>::empty());
        assert(cs.drop_first() =~= Seq::<UiCommand>::empty());
        assert(commands_overview(cs) =~= usage_line(cs[0]) + commands_overview(cs.drop_first()));
        assert(commands_overview(cs) =~= commands_overview(cs.drop_last()) + usage_line(
            cs.last(),
        ));
    } else {
        lemma_commands_overview_snoc(cs.drop_first());
        assert(cs.drop_first().drop_last() =~= cs.drop_last().drop_first());
        assert(cs.drop_last()[0] == cs[0]);
        assert(cs.drop_first().last() == cs.last());
        assert(commands_overview(cs.drop_last()) == usage_line(cs[0]) + commands_overview(
            cs.drop_last().drop_first(),
        ));
        assert(commands_overview(cs) =~= commands_overview(cs.drop_last()) + usage_line(
            cs.last(),
        ));
    }
}

/// Appending one group extends the overview by its section.
proof fn lemma_groups_overview_snoc(gs: Seq<UiGroup>)
    requires
        gs.len() >= 1,
    ensures
        groups_overview(gs) == groups_overview(gs.drop_last()) + group_overview(gs.last()),
    decreases gs.len(),
{
    if gs.len() == 1 {
        assert(gs.drop_last() =~= Seq::<UiGroup>::empty());
        assert(gs.drop_first() =~= Seq::<UiGroup>::empty());
        assert(groups_overview(gs) =~= groups_overview(gs.drop_last()) + group_overview(
            gs.last(),
        ));
    } else {
        lemma_groups_overview_snoc(gs.drop_first());
        assert(gs.drop_first().drop_last() =~= gs.drop_last().drop_first());
        assert(gs.drop_last()[0] == gs[0]);
        assert(gs.drop_first().last() == gs.last());
        assert(groups_overview(gs.drop_last()) == group_overview(gs[0]) + groups_overview(
            gs.drop_last().drop_first(),
        ));
        assert(groups_overview(gs) =~= groups_overview(gs.drop_last()) + group_overview(
            gs.last(),
        ));
    }
}

/// The fixed command table the server ships: one group holding `help`,
/// `propose`, `proposals`, `sessions`, `enter`, `exit` and `messages`.
pub open spec fn standard_ui(ui: Ui) -> bool {
    &&& ui.help_text@ == "Available commands:"@
    &&& ui.group@.len() == 1
    &&& ui.group@[0].help_text@ == "General"@
    &&& ui.group@[0].command@.len() == 7
    &&& ui.group@[0].command@[0].name@ == "help"@
    &&& ui.group@[0].command@[1].name@ == "propose"@
    &&& ui.group@[0].command@[2].name@ == "proposals"@
    &&& ui.group@[0].command@[3].name@ == "sessions"@
    &&& ui.group@[0].command@[4].name@ == "enter"@
    &&& ui.group@[0].command@[5].name@ == "exit"@
    &&& ui.group@[0].command@[6].name@ == "messages"@
}

impl Ui {
    /// The command grammar the server uses.
    pub fn instance() -> (r: Ui)
        ensures
            standard_ui(r),
    {
        let mut command: Vec<UiCommand> = Vec::new();
        command.push(
            UiCommand {
                help_text: String::from_str("Shows this overview, or one command's usage."),
                name: String::from_str("help"),
                args: String::from_str("[command]"),
            },
        );
        command.push(
            UiCommand {
                help_text: String::from_str("Proposes a new game of the given type."),
                name: String::from_str("propose"),
                args: String::from_str("<game-type>"),
            },
        );
        command.push(
            UiCommand {
                help_text: String::from_str("Lists the game proposals you can see."),
                name: String::from_str("proposals"),
                args: String::from_str(""),
            },
        );
        command.push(
            UiCommand {
                help_text: String::from_str("Lists your seats at proposals and games."),
                name: String::from_str("sessions"),
                args: String::from_str(""),
            },
        );
        command.push(
            UiCommand {
                help_text: String::from_str("Enters one of your sessions."),
                name: String::from_str("enter"),
                args: String::from_str("<session-id>"),
            },
        );
        command.push(
            UiCommand {
                help_text: String::from_str("Leaves the session you are in."),
                name: String::from_str("exit"),
                args: String::from_str(""),
            },
        );
        command.push(
            UiCommand {
                help_text: String::from_str("Lists your unread messages."),
                name: String::from_str("messages"),
                args: String::from_str(""),
            },
        );
        let mut group: Vec<UiGroup> = Vec::new();
        group.push(UiGroup { help_text: String::from_str("General"), command });
        Ui { help_text: String::from_str("Available commands:"), group }
    }
}

} // verus!
