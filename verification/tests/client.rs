use ajuna_worker::board_display::{append_decimal, render_board, render_turn_info};
use ajuna_worker::cli::{
    match_command, play_turn, request_call, request_getter, AjunaPublicCli, AjunaTrustedCommands,
    Cli, CliAction, Commands, DisputeCommand, DropBombCommand, DropStoneCommand, GetBoardCommand,
    PlayerRequest, QueueGameCommand, SideCommand, TrustedArgs,
};
use ajuna_worker::cli::queue_game_call;
use ajuna_worker::metadata::{CallMetadata, MetadataError, NodeMetadata, PalletMetadata};
use ajuna_worker::ocall_bridge::{GetOCallBridgeComponents, OCallBridgeComponentFactory};
use ajuna_worker::stf::{Coordinates, SgxGameTurn, Side, TrustedCall, TrustedGetter};
use std::str::FromStr;
use std::sync::Arc;

#[test]
fn sides_parse_from_their_names() {
    assert_eq!(SideCommand::from_str("north"), Ok(SideCommand(Side::North)));
    assert_eq!(SideCommand::from_str("east"), Ok(SideCommand(Side::East)));
    assert_eq!(SideCommand::from_str("south"), Ok(SideCommand(Side::South)));
    assert_eq!(SideCommand::from_str("west"), Ok(SideCommand(Side::West)));
    assert_eq!(SideCommand::from_str("North"), Err("Invalid side"));
    assert_eq!(SideCommand::from_str(""), Err("Invalid side"));
    assert_eq!(SideCommand::parse("westward"), Err("Invalid side"));
}

fn args(command: AjunaTrustedCommands) -> TrustedArgs {
    TrustedArgs { mrenclave: "MRENC".to_string(), shard: Some("SHARD".to_string()), direct: true, command }
}

fn trusted(player: &str, request: PlayerRequest) -> CliAction {
    CliAction::Trusted {
        player: player.to_string(),
        request,
        mrenclave: "MRENC".to_string(),
        shard: Some("SHARD".to_string()),
        direct: true,
    }
}

#[test]
fn queue_game_commands_queue_the_account() {
    let cmd = AjunaPublicCli::QueueGame(QueueGameCommand { account: "//Alice".to_string() });
    assert_eq!(cmd.run(), CliAction::QueueGame { who: "//Alice".to_string() });
    let cli = Cli { command: Commands::QueueGame { who: "//Bob".to_string() } };
    assert_eq!(match_command(&cli), CliAction::QueueGame { who: "//Bob".to_string() });
}

#[test]
fn trusted_commands_become_player_requests() {
    let bomb = AjunaTrustedCommands::DropBomb(DropBombCommand { player: "p".to_string(), col: 2, row: 3 });
    assert_eq!(
        match_command(&Cli { command: Commands::Trusted(args(bomb)) }),
        trusted("p", PlayerRequest::PlayTurn(SgxGameTurn::DropBomb(Coordinates { col: 2, row: 3 })))
    );
    let stone = AjunaTrustedCommands::DropStone(DropStoneCommand {
        player: "q".to_string(),
        side: SideCommand(Side::West),
        n: 4,
    });
    assert_eq!(
        args(stone.clone()).run(),
        trusted("q", PlayerRequest::PlayTurn(SgxGameTurn::DropStone((Side::West, 4))))
    );
    let board = AjunaTrustedCommands::GetBoard(GetBoardCommand { player: "r".to_string() });
    assert_eq!(board.run(&args(board.clone())), trusted("r", PlayerRequest::GetBoard));
    let dispute = AjunaTrustedCommands::Dispute(DisputeCommand { player: "s".to_string(), board_id: 9 });
    assert_eq!(dispute.run(&args(dispute.clone())), trusted("s", PlayerRequest::DisputeGame(9)));
    let plain = TrustedArgs { shard: None, direct: false, ..args(board) };
    assert_eq!(
        play_turn(&plain, &"t".to_string(), 6),
        CliAction::Trusted {
            player: "t".to_string(),
            request: PlayerRequest::ConnectfourPlayTurn(6),
            mrenclave: "MRENC".to_string(),
            shard: None,
            direct: false,
        }
    );
}

#[test]
fn requests_map_to_calls_and_getters() {
    let who = [8u8; 32];
    let turn = SgxGameTurn::DropBomb(Coordinates { col: 1, row: 1 });
    assert_eq!(request_call(PlayerRequest::PlayTurn(turn), who), Some(TrustedCall::BoardPlayTurn(who, turn)));
    assert_eq!(request_call(PlayerRequest::ConnectfourPlayTurn(2), who), Some(TrustedCall::ConnectfourPlayTurn(who, 2)));
    assert_eq!(request_call(PlayerRequest::DisputeGame(3), who), Some(TrustedCall::BoardDisputeGame(who, 3)));
    assert_eq!(request_call(PlayerRequest::GetBoard, who), None);
    assert_eq!(request_getter(PlayerRequest::GetBoard, who), Some(TrustedGetter::Board(who)));
    assert_eq!(request_getter(PlayerRequest::DisputeGame(3), who), None);
}

#[test]
fn decimals_have_no_leading_zeros() {
    let mut s = String::from("x");
    append_decimal(&mut s, 0);
    append_decimal(&mut s, 7);
    append_decimal(&mut s, 10);
    append_decimal(&mut s, 4294967295);
    assert_eq!(s, "x07104294967295");
}

#[test]
fn turn_info_names_block_and_player() {
    assert_eq!(render_turn_info(1234, 2), "Last turn in block number: 1234\nNext player: 2\n");
}

#[test]
fn board_is_drawn_row_by_row() {
    let mut board = [[0u8; 6]; 7];
    board[0][5] = 1;
    board[6][0] = 2;
    let lines = [
        "Board:",
        " 0  0  0  0  0  0  2 ",
        " 0  0  0  0  0  0  0 ",
        " 0  0  0  0  0  0  0 ",
        " 0  0  0  0  0  0  0 ",
        " 0  0  0  0  0  0  0 ",
        " 1  0  0  0  0  0  0 ",
        "=====================",
        " 0  1  2  3  4  5  6 ",
    ];
    let expected: String = lines.iter().map(|l| format!("{}\n", l)).collect();
    assert_eq!(render_board(&board), expected);
}

#[test]
fn bridge_components_share_the_factory_parts() {
    let node_api = Arc::new(5u32);
    let gossiper = Arc::new("gossip");
    let factory = OCallBridgeComponentFactory::new(node_api.clone(), gossiper.clone());
    let on_chain = factory.get_oc_api();
    assert!(Arc::ptr_eq(on_chain.node_api_factory(), &node_api));
    assert!(Arc::ptr_eq(on_chain.block_gossiper(), &gossiper));
    let _ra = factory.get_ra_api();
}

#[test]
fn queue_game_call_is_the_registry_queue_call() {
    let md = NodeMetadata {
        node_metadata: Some(vec![PalletMetadata {
            name: "GameRegistry".to_string(),
            index: 11,
            calls: vec![
                CallMetadata { name: "drop_game".to_string(), index: 0 },
                CallMetadata { name: "queue".to_string(), index: 1 },
            ],
            storage: vec![],
        }]),
    };
    assert_eq!(queue_game_call(&md).unwrap().bytes, vec![11, 1]);
    assert_eq!(queue_game_call(&NodeMetadata { node_metadata: None }), Err(MetadataError::MetadataNotSet));
    assert_eq!(
        queue_game_call(&NodeMetadata { node_metadata: Some(vec![]) }),
        Err(MetadataError::PalletNotFound)
    );
}

#[test]
fn every_game_board_is_drawn_in_the_same_shape() {
    let mut board = [[0u8; 6]; 7];
    assert_eq!(render_board(&board).len(), 183);
    board[3][2] = 2;
    board[4][4] = 1;
    let text = render_board(&board);
    assert_eq!(text.len(), 183);
    assert_eq!(text.lines().count(), 9);
    assert!(text.lines().skip(1).take(6).all(|l| l.len() == 21));
}
