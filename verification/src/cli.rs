//! The client's game commands. Running a command decides what is to be sent, as a
//! [`CliAction`]; signing it and sending it to the parentchain or to the worker is left to
//! the caller.
use vstd::prelude::*;
use crate::stf::{AccountId, BoardId, Coordinates, OpaqueCall, SgxGameTurn, Side, TrustedCall, TrustedGetter};
use crate::metadata::{MetadataError, NodeMetadata};
use crate::pallet_game_registry::GameRegistryCallIndexes;

verus! {

/// Sign up for a game, ready to be matched.
#[derive(Clone, Debug, PartialEq, Eq)]
pub struct QueueGameCommand {
    /// The account to register, in ss58check format.
    pub account: String,
}

/// Place a bomb on the board.
#[derive(Clone, Debug, PartialEq, Eq)]
pub struct DropBombCommand {
    /// The player's incognito account, in ss58check format.
    pub player: String,
    pub col: u8,
    pub row: u8,
}

/// A side of the board, as given on the command line.
#[derive(Clone, Copy, Debug, PartialEq, Eq)]
pub struct SideCommand(pub Side);

/// Drop a stone into the board from one of its sides.
#[derive(Clone, Debug, PartialEq, Eq)]
pub struct DropStoneCommand {
    /// The player's incognito account, in ss58check format.
    pub player: String,
    pub side: SideCommand,
    pub n: u8,
}

/// Query the board of a player.
#[derive(Clone, Debug, PartialEq, Eq)]
pub struct GetBoardCommand {
    /// The player's incognito account, in ss58check format.
    pub player: String,
}

/// Dispute the outcome of a board.
#[derive(Clone, Debug, PartialEq, Eq)]
pub struct DisputeCommand {
    /// The player's incognito account, in ss58check format.
    pub player: String,
    pub board_id: BoardId,
}

/// The game commands that go to the parentchain.
#[derive(Clone, Debug, PartialEq, Eq)]
pub enum AjunaPublicCli {
    QueueGame(QueueGameCommand),
}

/// The game commands that go to the worker enclave.
#[derive(Clone, Debug, PartialEq, Eq)]
pub enum AjunaTrustedCommands {
    DropBomb(DropBombCommand),
    DropStone(DropStoneCommand),
    GetBoard(GetBoardCommand),
    Dispute(DisputeCommand),
}

/// Where and how a trusted command is sent.
#[derive(Clone, Debug, PartialEq, Eq)]
pub struct TrustedArgs {
    /// The targeted worker's MRENCLAVE.
    pub mrenclave: String,
    /// The shard; when absent, the MRENCLAVE names it.
    pub shard: Option<String>,
    /// Whether the operation is sent directly to the worker rather than through the
    /// parentchain.
    pub direct: bool,
    pub command: AjunaTrustedCommands,
}

/// The client's top-level commands.
#[derive(Clone, Debug, PartialEq, Eq)]
pub enum Commands {
    /// Sign up for a game, ready to be matched.
    QueueGame {
        /// The account to register, in ss58check format.
        who: String,
    },
    /// Trusted calls to the worker enclave.
    Trusted(TrustedArgs),
}

/// The parsed command line.
#[derive(Clone, Debug, PartialEq, Eq)]
pub struct Cli {
    pub command: Commands,
}

/// What a player asks of the worker.
#[derive(Clone, Copy, Debug, PartialEq, Eq)]
pub enum PlayerRequest {
    /// A move on the player's board.
    PlayTurn(SgxGameTurn),
    /// A stone dropped into a column of the player's connect-four board.
    ConnectfourPlayTurn(u8),
    /// A dispute of a board's outcome.
    DisputeGame(BoardId),
    /// The player's board.
    GetBoard,
}

/// What running a command comes to.
#[derive(Clone, Debug, PartialEq, Eq)]
pub enum CliAction {
    /// Send the game registry's `queue` call to the parentchain, signed by `who`.
    QueueGame { who: String },
    /// Send a trusted operation for `player`, signed by the player, to the worker.
    Trusted {
        player: String,
        request: PlayerRequest,
        mrenclave: String,
        shard: Option<String>,
        direct: bool,
    },
}

/// The action of a trusted request of `player` with the given arguments.
pub open spec fn trusted_action(args: TrustedArgs, player: String, request: PlayerRequest) -> CliAction {
    CliAction::Trusted {
        player,
        request,
        mrenclave: args.mrenclave,
        shard: args.shard,
        direct: args.direct,
    }
}

/// The action of a trusted command.
pub open spec fn trusted_command_action(args: TrustedArgs, command: AjunaTrustedCommands) -> CliAction {
    match command {
        AjunaTrustedCommands::DropBomb(c) => trusted_action(
            args,
            c.player,
            PlayerRequest::PlayTurn(SgxGameTurn::DropBomb(Coordinates { col: c.col, row: c.row })),
        ),
        AjunaTrustedCommands::DropStone(c) => trusted_action(
            args,
            c.player,
            PlayerRequest::PlayTurn(SgxGameTurn::DropStone((c.side.0, c.n))),
        ),
        AjunaTrustedCommands::GetBoard(c) => trusted_action(args, c.player, PlayerRequest::GetBoard),
        AjunaTrustedCommands::Dispute(c) => trusted_action(
            args,
            c.player,
            PlayerRequest::DisputeGame(c.board_id),
        ),
    }
}

/// The action of a command line.
pub open spec fn command_action(command: Commands) -> CliAction {
    match command {
        Commands::QueueGame { who } => CliAction::QueueGame { who },
        Commands::Trusted(args) => trusted_command_action(args, args.command),
    }
}

/// Running a trusted command asks the worker named by the arguments (its MRENCLAVE, shard and
/// mode) for what the command's own sub-command says, for the player it names: a bomb at
/// exactly the given cell, a stone from exactly the given side into the given lane, the
/// player's board, or a dispute of exactly the given board.
pub proof fn lemma_trusted_commands_keep_their_arguments(args: TrustedArgs, command: AjunaTrustedCommands)
    ensures
        trusted_command_action(args, command) is Trusted,
        trusted_command_action(args, command)->mrenclave == args.mrenclave,
        trusted_command_action(args, command)->shard == args.shard,
        trusted_command_action(args, command)->direct == args.direct,
        command matches AjunaTrustedCommands::DropBomb(c) ==> {
            &&& trusted_command_action(args, command)->player == c.player
            &&& trusted_command_action(args, command)->request matches PlayerRequest::PlayTurn(
                SgxGameTurn::DropBomb(cell),
            )
            &&& cell.col == c.col
            &&& cell.row == c.row
        },
        command matches AjunaTrustedCommands::DropStone(c) ==> {
            &&& trusted_command_action(args, command)->player == c.player
            &&& trusted_command_action(args, command)->request matches PlayerRequest::PlayTurn(
                SgxGameTurn::DropStone((side, lane)),
            )
            &&& side == c.side.0
            &&& lane == c.n
        },
        command matches AjunaTrustedCommands::GetBoard(c) ==> {
            &&& trusted_command_action(args, command)->player == c.player
            &&& trusted_command_action(args, command)->request is GetBoard
        },
        command matches AjunaTrustedCommands::Dispute(c) ==> {
            &&& trusted_command_action(args, command)->player == c.player
            &&& trusted_command_action(args, command)->request matches PlayerRequest::DisputeGame(board)
            &&& board == c.board_id
        },
{
}

/// A command line of trusted arguments does what its trusted command does with those
/// arguments; a command line that queues a game queues the account it names.
pub proof fn lemma_command_line_runs_its_command(command: Commands)
    ensures
        command matches Commands::Trusted(args) ==> command_action(command) == trusted_command_action(
            args,
            args.command,
        ),
        command matches Commands::QueueGame { who } ==> command_action(command) is QueueGame
            && command_action(command)->who == who,
{
}

fn copy_optional_string(s: &Option<String>) -> (c: Option<String>)
    ensures
        c == *s,
{
    match s {
        Some(v) => Some(v.clone()),
        None => None,
    }
}

/// A trusted request of `player` with the given arguments.
pub fn trusted_request(args: &TrustedArgs, player: &String, request: PlayerRequest) -> (action:
    CliAction)
    ensures
        action == trusted_action(*args, *player, request),
{
    CliAction::Trusted {
        player: player.clone(),
        request,
        mrenclave: args.mrenclave.clone(),
        shard: copy_optional_string(&args.shard),
        direct: args.direct,
    }
}

impl QueueGameCommand {
    /// Queues the account for a game.
    pub fn run(&self) -> (action: CliAction)
        ensures
            action == (CliAction::QueueGame { who: self.account }),
    {
        CliAction::QueueGame { who: self.account.clone() }
    }
}

impl AjunaPublicCli {
    /// Runs the public command.
    pub fn run(&self) -> (action: CliAction)
        ensures
            match self {
                AjunaPublicCli::QueueGame(cmd) => action == (CliAction::QueueGame { who: cmd.account }),
            },
    {
        match self {
            AjunaPublicCli::QueueGame(cmd) => cmd.run(),
        }
    }
}

impl DropBombCommand {
    /// Plays a turn that places a bomb at the command's cell.
    pub fn run(&self, trusted_args: &TrustedArgs) -> (action: CliAction)
        ensures
            action == trusted_action(
                *trusted_args,
                self.player,
                PlayerRequest::PlayTurn(SgxGameTurn::DropBomb(Coordinates { col: self.col, row: self.row })),
            ),
    {
        trusted_request(
            trusted_args,
            &self.player,
            PlayerRequest::PlayTurn(SgxGameTurn::DropBomb(Coordinates { col: self.col, row: self.row })),
        )
    }
}

impl DropStoneCommand {
    /// Plays a turn that drops a stone from the command's side into lane `n`.
    pub fn run(&self, trusted_args: &TrustedArgs) -> (action: CliAction)
        ensures
            action == trusted_action(
                *trusted_args,
                self.player,
                PlayerRequest::PlayTurn(SgxGameTurn::DropStone((self.side.0, self.n))),
            ),
    {
        trusted_request(
            trusted_args,
            &self.player,
            PlayerRequest::PlayTurn(SgxGameTurn::DropStone((self.side.0, self.n))),
        )
    }
}

impl GetBoardCommand {
    /// Asks for the player's board.
    pub fn run(&self, trusted_args: &TrustedArgs) -> (action: CliAction)
        ensures
            action == trusted_action(*trusted_args, self.player, PlayerRequest::GetBoard),
    {
        trusted_request(trusted_args, &self.player, PlayerRequest::GetBoard)
    }
}

impl DisputeCommand {
    /// Disputes the board's outcome.
    pub fn run(&self, trusted_args: &TrustedArgs) -> (action: CliAction)
        ensures
            action == trusted_action(
                *trusted_args,
                self.player,
                PlayerRequest::DisputeGame(self.board_id),
            ),
    {
        trusted_request(trusted_args, &self.player, PlayerRequest::DisputeGame(self.board_id))
    }
}

impl AjunaTrustedCommands {
    /// Runs the trusted command with the given arguments.
    pub fn run(&self, trusted_args: &TrustedArgs) -> (action: CliAction)
        ensures
            action == trusted_command_action(*trusted_args, *self),
    {
        match self {
            AjunaTrustedCommands::DropBomb(cmd) => cmd.run(trusted_args),
            AjunaTrustedCommands::DropStone(cmd) => cmd.run(trusted_args),
            AjunaTrustedCommands::GetBoard(cmd) => cmd.run(trusted_args),
            AjunaTrustedCommands::Dispute(cmd) => cmd.run(trusted_args),
        }
    }
}

impl TrustedArgs {
    /// Runs the trusted command that the arguments hold.
    pub fn run(&self) -> (action: CliAction)
        ensures
            action == trusted_command_action(*self, self.command),
    {
        self.command.run(self)
    }
}

/// Runs the command of the command line.
pub fn match_command(cli: &Cli) -> (action: CliAction)
    ensures
        action == command_action(cli.command),
{
    match &cli.command {
        Commands::Trusted(cmd) => cmd.run(),
        Commands::QueueGame { who } => queue_game(who),
    }
}

/// Queues the account `who` for a game.
fn queue_game(who: &String) -> (action: CliAction)
    ensures
        action == (CliAction::QueueGame { who: *who }),
{
    CliAction::QueueGame { who: who.clone() }
}

/// The call that queues the signer for a game: the game registry's `queue` call, which takes
/// no arguments, so that it is encoded as its pallet index and call index.
pub fn queue_game_call(metadata: &NodeMetadata) -> (r: Result<OpaqueCall, MetadataError>)
    ensures
        match (r, metadata.spec_call_indexes("GameRegistry"@, "queue"@)) {
            (Ok(call), Ok(s)) => call.bytes@ == s,
            (Err(e), Err(f)) => e == f,
            _ => false,
        },
{
    match metadata.queue_call_indexes() {
        Ok(ix) => {
            let mut bytes: Vec<u8> = Vec::new();
            bytes.push(ix[0]);
            bytes.push(ix[1]);
            assert(bytes@ =~= ix@);
            Ok(OpaqueCall { bytes })
        },
        Err(e) => Err(e),
    }
}

/// Drops a stone into column `column` of the connect-four board of `player`.
pub fn play_turn(trusted_args: &TrustedArgs, player: &String, column: u8) -> (action: CliAction)
    ensures
        action == trusted_action(*trusted_args, *player, PlayerRequest::ConnectfourPlayTurn(column)),
{
    trusted_request(trusted_args, player, PlayerRequest::ConnectfourPlayTurn(column))
}

/// The trusted call that a request of the player with account `account` stands for; a
/// request for the board is a getter, not a call.
pub fn request_call(request: PlayerRequest, account: AccountId) -> (call: Option<TrustedCall>)
    ensures
        call == match request {
            PlayerRequest::PlayTurn(turn) => Some(TrustedCall::BoardPlayTurn(account, turn)),
            PlayerRequest::ConnectfourPlayTurn(column) => Some(
                TrustedCall::ConnectfourPlayTurn(account, column),
            ),
            PlayerRequest::DisputeGame(board_id) => Some(
                TrustedCall::BoardDisputeGame(account, board_id),
            ),
            PlayerRequest::GetBoard => None::<TrustedCall>,
        },
{
    match request {
        PlayerRequest::PlayTurn(turn) => Some(TrustedCall::BoardPlayTurn(account, turn)),
        PlayerRequest::ConnectfourPlayTurn(column) => Some(TrustedCall::ConnectfourPlayTurn(account, column)),
        PlayerRequest::DisputeGame(board_id) => Some(TrustedCall::BoardDisputeGame(account, board_id)),
        PlayerRequest::GetBoard => None,
    }
}

/// The trusted getter that a request of the player with account `account` stands for, if
/// it is a query.
pub fn request_getter(request: PlayerRequest, account: AccountId) -> (getter: Option<TrustedGetter>)
    ensures
        getter == match request {
            PlayerRequest::GetBoard => Some(TrustedGetter::Board(account)),
            _ => None::<TrustedGetter>,
        },
{
    match request {
        PlayerRequest::GetBoard => Some(TrustedGetter::Board(account)),
        _ => None,
    }
}

impl SideCommand {
    /// The side that a command-line word names: `north`, `east`, `south` or `west`.
    pub fn parse(s: &str) -> (r: Result<SideCommand, &'static str>)
        ensures
            s@ == "north"@ ==> r == Ok::<SideCommand, &'static str>(SideCommand(Side::North)),
            s@ == "east"@ ==> r == Ok::<SideCommand, &'static str>(SideCommand(Side::East)),
            s@ == "south"@ ==> r == Ok::<SideCommand, &'static str>(SideCommand(Side::South)),
            s@ == "west"@ ==> r == Ok::<SideCommand, &'static str>(SideCommand(Side::West)),
            s@ != "north"@ && s@ != "east"@ && s@ != "south"@ && s@ != "west"@ ==> (r matches Err(
                e,
            ) && e@ == "Invalid side"@),
    {
        proof {
            reveal_strlit("north");
            reveal_strlit("east");
            reveal_strlit("south");
            reveal_strlit("west");
            assert("north"@[0] == 'n' && "east"@[0] == 'e' && "south"@[0] == 's' && "west"@[0] == 'w');
        }
        let given = s.to_owned();
        if given.eq(&"north".to_owned()) {
            return Ok(SideCommand(Side::North));
        }
        if given.eq(&"east".to_owned()) {
            return Ok(SideCommand(Side::East));
        }
        if given.eq(&"south".to_owned()) {
            return Ok(SideCommand(Side::South));
        }
        if given.eq(&"west".to_owned()) {
            return Ok(SideCommand(Side::West));
        }
        Err("Invalid side")
    }
}

impl std::str::FromStr for SideCommand {
    type Err = &'static str;

    /// Parses a side as [`SideCommand::parse`] does.
    fn from_str(s: &str) -> (r: Result<Self, Self::Err>)
        ensures
            s@ == "north"@ ==> r == Ok::<SideCommand, &'static str>(SideCommand(Side::North)),
            s@ == "east"@ ==> r == Ok::<SideCommand, &'static str>(SideCommand(Side::East)),
            s@ == "south"@ ==> r == Ok::<SideCommand, &'static str>(SideCommand(Side::South)),
            s@ == "west"@ ==> r == Ok::<SideCommand, &'static str>(SideCommand(Side::West)),
            s@ != "north"@ && s@ != "east"@ && s@ != "south"@ && s@ != "west"@ ==> (r matches Err(
                e,
            ) && e@ == "Invalid side"@),
    {
        SideCommand::parse(s)
    }
}

} // verus!
