use blockchain_gateway::client::bitcoin::responses::Block;
use blockchain_gateway::client::bitcoin::walk::{BlockWalk, WalkRequest};

fn chain_block(hash: &str) -> Option<Block> {
    let previous = match hash {
        "H3" => "H2",
        "H2" => "H1",
        "H1" => "genesis",
        _ => return None,
    };
    Some(Block {
        hash: hash.to_string(),
        previousblockhash: previous.to_string(),
        tx: vec![format!("coinbase-{}", hash)],
        height: 0,
        confirmations: 0,
    })
}

// plays the node: answers every request of the walk, and counts them
fn run_walk(start: Option<String>, count: u64) -> (Vec<Block>, usize) {
    let mut walk = BlockWalk::start(start, count);
    let mut blocks = Vec::new();
    let mut calls = 0;
    loop {
        match walk.request() {
            WalkRequest::Nothing => break,
            WalkRequest::BestBlockHash => {
                calls += 1;
                walk = walk.best_block_hash("H3".to_string());
            }
            WalkRequest::Block(hash) => {
                calls += 1;
                let block = chain_block(&hash).unwrap();
                walk = walk.block(&block);
                blocks.push(block);
            }
        }
    }
    (blocks, calls)
}

#[test]
fn block_walk_chaining() {
    let (blocks, calls) = run_walk(Some("H3".to_string()), 3);
    let hashes: Vec<&str> = blocks.iter().map(|b| b.hash.as_str()).collect();
    assert_eq!(hashes, vec!["H3", "H2", "H1"]);
    assert_eq!(calls, 3);
    for i in 0..blocks.len() - 1 {
        assert_eq!(blocks[i + 1].hash, blocks[i].previousblockhash);
    }
}

#[test]
fn block_walk_from_best_block() {
    let (blocks, calls) = run_walk(None, 2);
    let hashes: Vec<&str> = blocks.iter().map(|b| b.hash.as_str()).collect();
    assert_eq!(hashes, vec!["H3", "H2"]);
    assert_eq!(calls, 3);
}

#[test]
fn block_walk_of_no_blocks_asks_nothing() {
    for start in [None, Some("H3".to_string())] {
        let walk = BlockWalk::start(start.clone(), 0);
        assert_eq!(walk, BlockWalk::Finished);
        assert_eq!(walk.request(), WalkRequest::Nothing);
        assert_eq!(walk.blocks_left(), 0);
        let (blocks, calls) = run_walk(start, 0);
        assert_eq!(blocks.len(), 0);
        assert_eq!(calls, 0);
    }
}

// plays a node whose answer number `fail_at` fails
fn run_failing_walk(start: Option<String>, count: u64, fail_at: usize) -> (Vec<Block>, bool, usize) {
    let mut walk = BlockWalk::start(start, count);
    let mut blocks = Vec::new();
    let mut failed = false;
    let mut calls = 0;
    loop {
        match walk.request() {
            WalkRequest::Nothing => break,
            _ if calls == fail_at => {
                calls += 1;
                failed = true;
                walk = walk.failed();
            }
            WalkRequest::BestBlockHash => {
                calls += 1;
                walk = walk.best_block_hash("H3".to_string());
            }
            WalkRequest::Block(hash) => {
                calls += 1;
                let block = chain_block(&hash).unwrap();
                walk = walk.block(&block);
                blocks.push(block);
            }
        }
    }
    assert_eq!(walk.is_complete(), !failed);
    (blocks, failed, calls)
}

#[test]
fn block_walk_cut_short_keeps_earlier_blocks() {
    for k in 0..3 {
        let (blocks, failed, calls) = run_failing_walk(Some("H3".to_string()), 3, k);
        assert!(failed);
        assert_eq!(calls, k + 1);
        let hashes: Vec<&str> = blocks.iter().map(|b| b.hash.as_str()).collect();
        assert_eq!(hashes, ["H3", "H2", "H1"][..k].to_vec());
    }
    // a walk that got all its blocks is complete
    let (blocks, failed, _) = run_failing_walk(Some("H3".to_string()), 3, 3);
    assert_eq!((blocks.len(), failed), (3, false));
    // the request for the newest block can fail too
    let (blocks, failed, calls) = run_failing_walk(None, 2, 0);
    assert_eq!((blocks.len(), failed, calls), (0, true, 1));
    // a failed walk takes nothing more
    let walk = BlockWalk::start(Some("H3".to_string()), 2).failed();
    assert_eq!(walk, BlockWalk::Failed);
    assert_eq!(walk.request(), WalkRequest::Nothing);
    assert_eq!(walk.blocks_left(), 0);
    let walk = walk.block(&chain_block("H3").unwrap());
    assert_eq!(walk, BlockWalk::Failed);
    assert!(!walk.is_complete());
    assert_eq!(BlockWalk::Finished.failed(), BlockWalk::Finished);
}

#[test]
fn block_walk_steps() {
    let walk = BlockWalk::start(Some("H3".to_string()), 2);
    assert_eq!(walk.blocks_left(), 2);
    assert_eq!(walk.request(), WalkRequest::Block("H3".to_string()));
    // an answer that was not asked for changes nothing
    let walk = walk.best_block_hash("other".to_string());
    assert_eq!(walk.request(), WalkRequest::Block("H3".to_string()));
    let walk = walk.block(&chain_block("H3").unwrap());
    assert_eq!(walk, BlockWalk::Walking { left: 1, next: "H2".to_string() });
    let walk = walk.block(&chain_block("H2").unwrap());
    assert_eq!(walk, BlockWalk::Finished);
    let walk = walk.block(&chain_block("H1").unwrap());
    assert_eq!(walk, BlockWalk::Finished);
    let walk = BlockWalk::start(None, 1);
    assert_eq!(walk, BlockWalk::Starting { left: 1 });
    assert_eq!(walk.request(), WalkRequest::BestBlockHash);
    assert_eq!(walk.block(&chain_block("H1").unwrap()), BlockWalk::Starting { left: 1 });
}
