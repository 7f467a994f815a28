use ale::action::Action;
use ale::session::ALE;
use ale::engine::Engine;
use ale::game::Game;
use ale::guard::InstanceGuard;
use ale::record::GameRecord;
use ale::size::SizeError;
use ale::state::{decode_state, encode_state, encode_state_sized, AleState, AleSystemState};
use std::collections::HashMap;

/// What a snapshot of the stand-in engine holds.
#[derive(Clone, Debug, PartialEq)]
struct Machine {
    frame: i32,
    episode_frame: i32,
    lives: i32,
    ram: Vec<u8>,
}

struct Snapshot(Machine);

/// A stand-in engine. `W` and `H` are the screen dimensions it reports, `RAM`
/// the RAM size, `ACTIONS` the size of the legal action set. With `ODD` set to 1
/// it reports a negative length for a written-out state.
struct Sim<const W: i32, const H: i32, const RAM: i32, const ACTIONS: i32, const ODD: i32> {
    strings: HashMap<String, Vec<u8>>,
    ints: HashMap<String, i32>,
    rom: Option<String>,
    machine: Machine,
    slot: Option<Machine>,
}

type Pong = Sim<160, 210, 128, 18, 0>;

fn seeded(name: &str, len: i32) -> Vec<u8> {
    let seed = name.as_bytes();
    let mut ram = Vec::new();
    let mut i = 0;
    while (i as i32) < len {
        ram.push(if seed.is_empty() { 0 } else { seed[i % seed.len()] });
        i += 1;
    }
    ram
}

impl<const W: i32, const H: i32, const RAM: i32, const ACTIONS: i32, const ODD: i32> Engine
    for Sim<W, H, RAM, ACTIONS, ODD>
{
    type State = Snapshot;

    fn create() -> Self {
        Sim {
            strings: HashMap::new(),
            ints: HashMap::new(),
            rom: None,
            machine: Machine { frame: 0, episode_frame: 0, lives: 3, ram: seeded("", RAM) },
            slot: None,
        }
    }

    fn delete(self) {}

    fn get_string(&self, key: &str) -> Vec<u8> {
        if key == "garbled" {
            return vec![0x41, 0xff, 0xfe];
        }
        self.strings.get(key).cloned().unwrap_or_default()
    }

    fn get_bool(&self, key: &str) -> i32 {
        self.ints.get(key).copied().unwrap_or(0)
    }

    fn get_int(&self, key: &str) -> i32 {
        self.ints.get(key).copied().unwrap_or(0)
    }

    fn set_string(&mut self, key: &str, val: &str) {
        self.strings.insert(key.to_string(), val.as_bytes().to_vec());
    }

    fn set_bool(&mut self, key: &str, val: i32) {
        self.ints.insert(key.to_string(), val);
    }

    fn set_int(&mut self, key: &str, val: i32) {
        self.ints.insert(key.to_string(), val);
    }

    fn load_rom(&mut self, file_name: &str) {
        self.rom = Some(file_name.to_string());
        self.machine = Machine { frame: 0, episode_frame: 0, lives: 3, ram: seeded(file_name, RAM) };
    }

    fn act(&mut self, action: i32) -> i32 {
        self.machine.frame += 1;
        self.machine.episode_frame += 1;
        let len = self.machine.ram.len();
        if len > 0 {
            let at = self.machine.frame as usize % len;
            self.machine.ram[at] = self.machine.ram[at].wrapping_add(action as u8).wrapping_add(1);
        }
        if self.machine.episode_frame % 4 == 0 && self.machine.lives > 0 {
            self.machine.lives -= 1;
        }
        action * 10
    }

    fn game_over(&self) -> i32 {
        if self.machine.lives == 0 {
            2
        } else {
            0
        }
    }

    fn reset_game(&mut self) {
        self.machine.episode_frame = 0;
        self.machine.lives = 3;
    }

    fn legal_action_size(&self) -> i32 {
        ACTIONS
    }

    fn legal_action_set(&self, actions: &mut [i32]) {
        for (i, a) in actions.iter_mut().enumerate() {
            *a = i as i32;
        }
    }

    fn minimal_action_size(&self) -> i32 {
        if ACTIONS < 0 {
            ACTIONS
        } else {
            (ACTIONS + 1) / 2
        }
    }

    fn minimal_action_set(&self, actions: &mut [i32]) {
        for (i, a) in actions.iter_mut().enumerate() {
            *a = 2 * i as i32;
        }
    }

    fn frame_number(&self) -> i32 {
        self.machine.frame
    }

    fn lives(&self) -> i32 {
        self.machine.lives
    }

    fn episode_frame_number(&self) -> i32 {
        self.machine.episode_frame
    }

    fn screen_width(&self) -> i32 {
        W
    }

    fn screen_height(&self) -> i32 {
        H
    }

    fn screen(&self, buf: &mut [u8]) {
        for (i, b) in buf.iter_mut().enumerate() {
            *b = (self.machine.frame as usize + i) as u8;
        }
    }

    fn screen_rgb(&self, buf: &mut [u8]) {
        for (i, b) in buf.iter_mut().enumerate() {
            *b = (3 * self.machine.frame as usize + 7 * i + 1) as u8;
        }
    }

    fn ram_size(&self) -> i32 {
        RAM
    }

    fn ram(&self, buf: &mut [u8]) {
        for (i, b) in buf.iter_mut().enumerate() {
            *b = self.machine.ram[i];
        }
    }

    fn save_state(&mut self) {
        self.slot = Some(self.machine.clone());
    }

    fn load_state(&mut self) {
        if let Some(saved) = &self.slot {
            self.machine = saved.clone();
        }
    }

    fn save_screen_png(&self, file_name: &str) {
        assert!(!file_name.is_empty());
    }

    fn clone_state(&self) -> Snapshot {
        Snapshot(self.machine.clone())
    }

    fn restore_state(&mut self, state: &Snapshot) {
        self.machine = state.0.clone();
    }

    fn clone_system_state(&self) -> Snapshot {
        Snapshot(self.machine.clone())
    }

    fn restore_system_state(&mut self, state: &Snapshot) {
        self.machine = state.0.clone();
    }

    fn encode_state_len(state: &Snapshot) -> i32 {
        if ODD == 1 {
            -1
        } else {
            12 + state.0.ram.len() as i32
        }
    }

    fn encode_state(state: &Snapshot, buf: &mut [i8]) {
        let mut bytes: Vec<u8> = Vec::new();
        bytes.extend_from_slice(&state.0.frame.to_le_bytes());
        bytes.extend_from_slice(&state.0.episode_frame.to_le_bytes());
        bytes.extend_from_slice(&state.0.lives.to_le_bytes());
        bytes.extend_from_slice(&state.0.ram);
        for (i, b) in buf.iter_mut().enumerate() {
            *b = bytes[i] as i8;
        }
    }

    fn decode_state(serialized: &[i8], len: i32) -> Snapshot {
        let bytes: Vec<u8> = serialized[..len as usize].iter().map(|b| *b as u8).collect();
        let word = |at: usize| i32::from_le_bytes([bytes[at], bytes[at + 1], bytes[at + 2], bytes[at + 3]]);
        Snapshot(Machine {
            frame: word(0),
            episode_frame: word(4),
            lives: word(8),
            ram: bytes[12..].to_vec(),
        })
    }
}

fn pong(guard: &mut InstanceGuard) -> Game<Pong> {
    ALE::<Pong>::new(guard).load_rom("pong.bin")
}

#[test]
fn making_an_engine_sets_the_guard_and_closing_clears_it() {
    let mut guard = InstanceGuard::new();
    let ale = ALE::<Pong>::new(&mut guard);
    assert!(guard.held());
    assert!(!guard.acquire());
    ale.close(&mut guard);
    assert!(!guard.held());
}

#[test]
fn an_engine_can_be_made_again_after_the_first_is_closed() {
    let mut guard = InstanceGuard::new();
    let first = ALE::<Pong>::new(&mut guard);
    first.close(&mut guard);
    let second = ALE::<Pong>::new(&mut guard);
    assert!(guard.held());
    second.close(&mut guard);
    assert!(!guard.held());
}

#[test]
fn the_guard_stays_set_while_the_engine_lives_on_as_a_game() {
    let mut guard = InstanceGuard::new();
    let game = pong(&mut guard);
    assert!(guard.held());
    let game = game.change_game("breakout.bin");
    assert!(guard.held());
    let ale: ALE<Pong> = game.into();
    assert!(guard.held());
    ale.close(&mut guard);
    assert!(!guard.held());
}

#[test]
fn settings_round_trip_through_the_engine() {
    let mut guard = InstanceGuard::new();
    let mut ale = ALE::<Pong>::new(&mut guard);
    ale.set_int("random_seed", 123);
    ale.set_bool("display_screen", true);
    ale.set_bool("sound", false);
    ale.set_string("record_screen_dir", "frames");
    assert_eq!(ale.get_int("random_seed"), 123);
    assert_eq!(ale.get_int("display_screen"), 1);
    assert!(ale.get_bool("display_screen"));
    assert!(!ale.get_bool("sound"));
    assert_eq!(ale.get_string("record_screen_dir"), Some(String::from("frames")));
    assert_eq!(ale.get_string("unknown"), Some(String::new()));
}

#[test]
fn a_boolean_setting_is_true_for_any_integer_but_zero() {
    let mut guard = InstanceGuard::new();
    let mut ale = ALE::<Pong>::new(&mut guard);
    ale.set_int("color_averaging", -3);
    assert!(ale.get_bool("color_averaging"));
    ale.set_int("color_averaging", 0);
    assert!(!ale.get_bool("color_averaging"));
}

#[test]
fn a_string_setting_that_is_not_utf8_is_none() {
    let mut guard = InstanceGuard::new();
    let ale = ALE::<Pong>::new(&mut guard);
    assert_eq!(ale.get_string("garbled"), None);
}

#[test]
fn the_engine_underneath_can_be_looked_at() {
    let mut guard = InstanceGuard::new();
    let ale = ALE::<Pong>::new(&mut guard);
    assert_eq!(ale.engine().rom, None);
    let mut game = ale.load_rom("pong.bin");
    game.act(Action(1));
    assert_eq!(game.ale().engine().rom, Some(String::from("pong.bin")));
    assert_eq!(game.ale().engine().machine.frame, 1);
}

#[test]
fn settings_stay_in_reach_through_a_game() {
    let mut guard = InstanceGuard::new();
    let mut game = pong(&mut guard);
    game.ale_mut().set_int("frame_skip", 4);
    assert_eq!(game.ale().get_int("frame_skip"), 4);
    assert_eq!(game.rom_path(), "pong.bin");
}

#[test]
fn loading_a_rom_gives_a_game_that_knows_its_rom() {
    let mut guard = InstanceGuard::new();
    let game = pong(&mut guard);
    assert_eq!(game.rom_path(), "pong.bin");
    assert_eq!(game.frame_number(), 0);
}

#[test]
fn changing_the_game_loads_the_other_rom_into_the_same_engine() {
    let mut guard = InstanceGuard::new();
    let mut game = pong(&mut guard);
    game.ale_mut().set_int("frame_skip", 4);
    game.act(Action(1));
    let game = game.change_game("breakout.bin");
    assert_eq!(game.rom_path(), "breakout.bin");
    assert_eq!(game.frame_number(), 0);
    assert_eq!(game.ale().get_int("frame_skip"), 4);
    assert_eq!(game.ram().unwrap()[0], 98);
}

#[test]
fn five_steps_make_five_frames() {
    let mut guard = InstanceGuard::new();
    let mut game = pong(&mut guard);
    for _ in 0..5 {
        game.act(Action(0));
    }
    assert_eq!(game.frame_number(), 5);
    assert_eq!(game.episode_frame_number(), 5);
}

#[test]
fn act_hands_the_code_to_the_engine_and_the_reward_back() {
    let mut guard = InstanceGuard::new();
    let mut game = pong(&mut guard);
    assert_eq!(game.act(Action(3)), 30);
    assert_eq!(game.act(Action(-2)), -20);
    assert_eq!(game.act(Action(0)), 0);
}

#[test]
fn reset_starts_the_episode_anew_and_keeps_the_rom() {
    let mut guard = InstanceGuard::new();
    let mut game = pong(&mut guard);
    for _ in 0..6 {
        game.act(Action(2));
    }
    assert_eq!(game.lives(), 2);
    game.reset();
    assert_eq!(game.episode_frame_number(), 0);
    assert_eq!(game.lives(), 3);
    assert_eq!(game.frame_number(), 6);
    assert_eq!(game.rom_path(), "pong.bin");
}

#[test]
fn the_episode_is_over_when_the_engine_says_anything_but_zero() {
    let mut guard = InstanceGuard::new();
    let mut game = pong(&mut guard);
    assert!(!game.is_over());
    for _ in 0..12 {
        game.act(Action(1));
    }
    assert_eq!(game.lives(), 0);
    assert!(game.is_over());
}

#[test]
fn acting_after_the_end_is_still_a_step_and_harms_no_buffer() {
    let mut guard = InstanceGuard::new();
    let mut game = pong(&mut guard);
    for _ in 0..12 {
        game.act(Action(1));
    }
    assert!(game.is_over());
    let mut screen = game.screen().unwrap();
    let mut ram = game.ram().unwrap();
    assert_eq!(game.act(Action(4)), 40);
    assert_eq!(game.act(Action(4)), 40);
    assert!(game.is_over());
    assert_eq!(game.frame_number(), 14);
    assert_eq!(game.screen_in_buf(&mut screen), Ok(()));
    assert_eq!(game.ram_in_buf(&mut ram), Ok(()));
    assert_eq!(screen.len(), 33600);
    assert_eq!(ram.len(), 128);
    assert_eq!(game.legal_action_set().unwrap().len(), 18);
}

#[test]
fn the_legal_action_set_has_the_reported_size() {
    let mut guard = InstanceGuard::new();
    let game = pong(&mut guard);
    let actions = game.legal_action_set().unwrap();
    assert_eq!(actions.len(), 18);
    assert_eq!(actions[0], Action(0));
    assert_eq!(actions[17], Action(17));
}

#[test]
fn the_minimal_action_set_has_the_reported_size() {
    let mut guard = InstanceGuard::new();
    let game = pong(&mut guard);
    let actions = game.minimal_action_set().unwrap();
    assert_eq!(actions.len(), 9);
    assert_eq!(actions, vec![
        Action(0), Action(2), Action(4), Action(6), Action(8), Action(10), Action(12), Action(14),
        Action(16),
    ]);
}

#[test]
fn an_action_set_of_a_given_size_has_that_many_actions() {
    let mut guard = InstanceGuard::new();
    let game = pong(&mut guard);
    assert_eq!(game.legal_action_set_sized(0), Ok(vec![]));
    assert_eq!(game.legal_action_set_sized(3), Ok(vec![Action(0), Action(1), Action(2)]));
    assert_eq!(game.minimal_action_set_sized(2), Ok(vec![Action(0), Action(2)]));
    assert_eq!(game.legal_action_set_sized(-1), Err(SizeError::Negative));
    assert_eq!(game.minimal_action_set_sized(-7), Err(SizeError::Negative));
}

#[test]
fn an_engine_without_actions_gives_empty_sets() {
    let mut guard = InstanceGuard::new();
    let game = ALE::<Sim<160, 210, 128, 0, 0>>::new(&mut guard).load_rom("idle.bin");
    assert_eq!(game.legal_action_set(), Ok(vec![]));
    assert_eq!(game.minimal_action_set(), Ok(vec![]));
}

#[test]
fn a_negative_action_set_size_is_an_error() {
    let mut guard = InstanceGuard::new();
    let game = ALE::<Sim<160, 210, 128, -4, 0>>::new(&mut guard).load_rom("odd.bin");
    assert_eq!(game.legal_action_set(), Err(SizeError::Negative));
    assert_eq!(game.minimal_action_set(), Err(SizeError::Negative));
}

#[test]
fn the_screen_has_width_times_height_bytes() {
    let mut guard = InstanceGuard::new();
    let mut game = pong(&mut guard);
    assert_eq!(game.screen_dimensions(), (160, 210));
    let screen = game.screen().unwrap();
    assert_eq!(screen.len(), 160 * 210);
    assert_eq!(screen[0], 0);
    assert_eq!(screen[5], 5);
    game.act(Action(0));
    let screen = game.screen().unwrap();
    assert_eq!(screen.len(), 33600);
    assert_eq!(screen[0], 1);
    assert_eq!(screen[33599], (1 + 33599) as u8);
}

#[test]
fn the_rgb_screen_has_width_times_height_bytes_in_the_engines_packing() {
    let mut guard = InstanceGuard::new();
    let game = pong(&mut guard);
    let rgb = game.screen_rgb().unwrap();
    assert_eq!(rgb.len(), 33600);
    assert_eq!(rgb[0], 1);
    assert_eq!(rgb[1], 8);
    assert_eq!(rgb[2], 15);
}

#[test]
fn the_ram_has_ram_size_bytes() {
    let mut guard = InstanceGuard::new();
    let game = pong(&mut guard);
    assert_eq!(game.ram_size(), 128);
    let ram = game.ram().unwrap();
    assert_eq!(ram.len(), 128);
    assert_eq!(&ram[..8], "pong.bin".as_bytes());
    assert_eq!(&ram[8..12], "pong".as_bytes());
}

#[test]
fn a_small_buffer_grows_to_the_exact_length() {
    let mut guard = InstanceGuard::new();
    let game = pong(&mut guard);
    let mut buf: Vec<u8> = vec![9, 9, 9];
    assert_eq!(game.ram_in_buf(&mut buf), Ok(()));
    assert_eq!(buf.len(), 128);
    assert_eq!(buf, game.ram().unwrap());
    let mut buf: Vec<u8> = Vec::new();
    assert_eq!(game.screen_in_buf(&mut buf), Ok(()));
    assert_eq!(buf.len(), 33600);
    assert_eq!(buf, game.screen().unwrap());
}

#[test]
fn a_large_buffer_keeps_no_stale_bytes_behind_the_length() {
    let mut guard = InstanceGuard::new();
    let game = pong(&mut guard);
    let mut buf: Vec<u8> = vec![0xee; 40000];
    assert_eq!(game.screen_in_buf(&mut buf), Ok(()));
    assert_eq!(buf.len(), 33600);
    assert_eq!(buf, game.screen().unwrap());
    assert_eq!(game.screen_rgb_in_buf(&mut buf), Ok(()));
    assert_eq!(buf.len(), 33600);
    assert_eq!(buf, game.screen_rgb().unwrap());
    assert_eq!(game.ram_in_buf(&mut buf), Ok(()));
    assert_eq!(buf.len(), 128);
    assert_eq!(buf, game.ram().unwrap());
}

#[test]
fn a_buffer_for_given_sizes_has_exactly_that_length() {
    let mut guard = InstanceGuard::new();
    let game = pong(&mut guard);
    let mut buf: Vec<u8> = vec![1, 2, 3];
    assert_eq!(game.screen_in_buf_sized(&mut buf, 4, 5), Ok(()));
    assert_eq!(buf.len(), 20);
    assert_eq!(game.screen_rgb_in_buf_sized(&mut buf, 3, 3), Ok(()));
    assert_eq!(buf.len(), 9);
    assert_eq!(game.ram_in_buf_sized(&mut buf, 16), Ok(()));
    assert_eq!(buf.len(), 16);
    assert_eq!(game.ram_in_buf_sized(&mut buf, 0), Ok(()));
    assert!(buf.is_empty());
}

#[test]
fn a_buffer_is_left_alone_where_the_size_is_refused() {
    let mut guard = InstanceGuard::new();
    let game = pong(&mut guard);
    let mut buf: Vec<u8> = vec![1, 2, 3];
    assert_eq!(game.ram_in_buf_sized(&mut buf, -1), Err(SizeError::Negative));
    assert_eq!(buf, vec![1, 2, 3]);
    assert_eq!(game.screen_in_buf_sized(&mut buf, -160, 210), Err(SizeError::Negative));
    assert_eq!(buf, vec![1, 2, 3]);
    assert_eq!(game.screen_rgb_in_buf_sized(&mut buf, 160, -210), Err(SizeError::Negative));
    assert_eq!(buf, vec![1, 2, 3]);
}

#[test]
fn an_engine_with_negative_sizes_fills_nothing() {
    let mut guard = InstanceGuard::new();
    let game = ALE::<Sim<-160, 210, -1, 18, 0>>::new(&mut guard).load_rom("odd.bin");
    let mut buf: Vec<u8> = vec![5, 6];
    assert_eq!(game.screen_in_buf(&mut buf), Err(SizeError::Negative));
    assert_eq!(game.screen_rgb_in_buf(&mut buf), Err(SizeError::Negative));
    assert_eq!(game.ram_in_buf(&mut buf), Err(SizeError::Negative));
    assert_eq!(buf, vec![5, 6]);
    assert_eq!(game.screen(), Err(SizeError::Negative));
    assert_eq!(game.screen_rgb(), Err(SizeError::Negative));
    assert_eq!(game.ram(), Err(SizeError::Negative));
}

#[test]
fn an_engine_without_screen_or_ram_gives_empty_buffers() {
    let mut guard = InstanceGuard::new();
    let game = ALE::<Sim<0, 210, 0, 18, 0>>::new(&mut guard).load_rom("blank.bin");
    assert_eq!(game.screen(), Ok(vec![]));
    assert_eq!(game.screen_rgb(), Ok(vec![]));
    assert_eq!(game.ram(), Ok(vec![]));
}

#[test]
fn the_engine_slot_saves_and_loads() {
    let mut guard = InstanceGuard::new();
    let mut game = pong(&mut guard);
    game.act(Action(1));
    game.act(Action(1));
    game.save_state();
    let ram = game.ram().unwrap();
    for _ in 0..5 {
        game.act(Action(3));
    }
    assert_eq!(game.frame_number(), 7);
    game.load_state();
    assert_eq!(game.frame_number(), 2);
    assert_eq!(game.ram().unwrap(), ram);
    assert_eq!(game.rom_path(), "pong.bin");
}

#[test]
fn a_screenshot_is_asked_of_the_engine() {
    let mut guard = InstanceGuard::new();
    let game = pong(&mut guard);
    game.save_screen_png("frame.png");
    assert_eq!(game.frame_number(), 0);
}

#[test]
fn clone_then_restore_changes_nothing() {
    let mut guard = InstanceGuard::new();
    let mut game = pong(&mut guard);
    for _ in 0..5 {
        game.act(Action(2));
    }
    let frame = game.frame_number();
    let lives = game.lives();
    let ram = game.ram().unwrap();
    let screen = game.screen().unwrap();
    let state = game.clone_state();
    game.restore_from_cloned_state(&state);
    assert_eq!(game.frame_number(), frame);
    assert_eq!(game.lives(), lives);
    assert_eq!(game.ram().unwrap(), ram);
    assert_eq!(game.screen().unwrap(), screen);
}

#[test]
fn restoring_a_system_state_goes_back_ten_steps() {
    let mut guard = InstanceGuard::new();
    let mut game = pong(&mut guard);
    for _ in 0..3 {
        game.act(Action(1));
    }
    let before = game.frame_number();
    let state = game.clone_system_state();
    for _ in 0..10 {
        game.act(Action(1));
    }
    assert_eq!(game.frame_number(), before + 10);
    game.restore_from_cloned_system_state(&state);
    assert_eq!(game.frame_number(), before);
    assert_eq!(game.frame_number(), 3);
}

#[test]
fn a_snapshot_serves_more_than_one_restore() {
    let mut guard = InstanceGuard::new();
    let mut game = pong(&mut guard);
    game.act(Action(1));
    let state = game.clone_state();
    let ram = game.ram().unwrap();
    for round in 0..3 {
        for _ in 0..=round {
            game.act(Action(5));
        }
        assert_ne!(game.ram().unwrap(), ram);
        game.restore_from_cloned_state(&state);
        assert_eq!(game.frame_number(), 1);
        assert_eq!(game.ram().unwrap(), ram);
    }
}

#[test]
fn taking_a_snapshot_does_not_change_the_game() {
    let mut guard = InstanceGuard::new();
    let mut game = pong(&mut guard);
    game.act(Action(1));
    let ram = game.ram().unwrap();
    let _state = game.clone_state();
    let _system = game.clone_system_state();
    assert_eq!(game.frame_number(), 1);
    assert_eq!(game.ram().unwrap(), ram);
}

#[test]
fn a_state_written_out_has_the_reported_length_and_reads_back() {
    let mut guard = InstanceGuard::new();
    let mut game = pong(&mut guard);
    for _ in 0..6 {
        game.act(Action(1));
    }
    let ram = game.ram().unwrap();
    let serial = game.clone_state().encode().unwrap();
    assert_eq!(serial.len(), 12 + 128);
    assert_eq!(&serial[..4], &[6, 0, 0, 0]);
    assert_eq!(&serial[8..12], &[2, 0, 0, 0]);
    for _ in 0..4 {
        game.act(Action(1));
    }
    let state = AleState::<Pong>::decode(serial.clone()).unwrap();
    game.restore_from_cloned_state(&state);
    assert_eq!(game.frame_number(), 6);
    assert_eq!(game.lives(), 2);
    assert_eq!(game.ram().unwrap(), ram);
    assert_eq!(state.encode().unwrap(), serial);
}

#[test]
fn a_system_state_written_out_reads_back() {
    let mut guard = InstanceGuard::new();
    let mut game = pong(&mut guard);
    game.act(Action(9));
    let serial = game.clone_system_state().encode().unwrap();
    game.act(Action(9));
    let state = AleSystemState::<Pong>::decode(serial.clone()).unwrap();
    game.restore_from_cloned_system_state(&state);
    assert_eq!(game.frame_number(), 1);
    assert_eq!(state.encode().unwrap(), serial);
}

#[test]
fn the_free_functions_write_and_read_a_snapshot() {
    let snapshot = Snapshot(Machine { frame: 258, episode_frame: 2, lives: 1, ram: vec![200, 1] });
    let serial = encode_state::<Pong>(&snapshot).unwrap();
    assert_eq!(serial, vec![2, 1, 0, 0, 2, 0, 0, 0, 1, 0, 0, 0, -56, 1]);
    let back = decode_state::<Pong>(&serial).unwrap();
    assert_eq!(back.0, snapshot.0);
}

#[test]
fn a_state_written_for_a_given_length_has_that_length() {
    let snapshot = Snapshot(Machine { frame: 1, episode_frame: 1, lives: 3, ram: vec![4, 5, 6] });
    assert_eq!(encode_state_sized::<Pong>(&snapshot, 15).unwrap().len(), 15);
    assert_eq!(encode_state_sized::<Pong>(&snapshot, 4).unwrap(), vec![1, 0, 0, 0]);
    assert_eq!(encode_state_sized::<Pong>(&snapshot, 0).unwrap(), Vec::<i8>::new());
    assert_eq!(encode_state_sized::<Pong>(&snapshot, -1), Err(SizeError::Negative));
}

#[test]
fn a_negative_state_length_is_an_error() {
    let mut guard = InstanceGuard::new();
    let game = ALE::<Sim<160, 210, 128, 18, 1>>::new(&mut guard).load_rom("odd.bin");
    assert_eq!(game.clone_state().encode(), Err(SizeError::Negative));
    assert_eq!(game.clone_system_state().encode(), Err(SizeError::Negative));
    assert!(game.encode(vec![1, 2, 3]).is_err());
}

#[test]
fn a_stored_game_holds_path_rom_and_state_in_that_order() {
    let mut guard = InstanceGuard::new();
    let mut game = pong(&mut guard);
    game.act(Action(1));
    let system = game.clone_system_state().encode().unwrap();
    let GameRecord { rom_path, rom_bytes, system_state } = game.encode(vec![0x4c, 0x01, 0x02]).unwrap();
    assert_eq!(rom_path, "pong.bin");
    assert_eq!(rom_bytes, vec![0x4c, 0x01, 0x02]);
    assert_eq!(system_state, system);
}

#[test]
fn a_game_stored_and_brought_back_is_where_it_was() {
    let mut guard = InstanceGuard::new();
    let mut game = pong(&mut guard);
    for _ in 0..7 {
        game.act(Action(3));
    }
    let ram = game.ram().unwrap();
    let screen = game.screen().unwrap();
    let frame = game.frame_number();
    let lives = game.lives();
    let record = game.encode(vec![1, 2, 3, 4]).unwrap();
    ALE::from(game).close(&mut guard);

    let back = Game::<Pong>::decode(record, &mut guard).unwrap();
    assert!(guard.held());
    assert_eq!(back.rom_path(), "pong.bin");
    assert_eq!(back.frame_number(), frame);
    assert_eq!(back.frame_number(), 7);
    assert_eq!(back.lives(), lives);
    assert_eq!(back.ram().unwrap(), ram);
    assert_eq!(back.screen().unwrap(), screen);
}

#[test]
fn a_missing_rom_file_is_written_anew_with_the_stored_bytes() {
    let rom: Vec<u8> = vec![0x78, 0xd8, 0xa2, 0xff, 0x9a];
    let mut files: HashMap<String, Vec<u8>> = HashMap::new();
    files.insert(String::from("pong.bin"), rom.clone());

    let mut guard = InstanceGuard::new();
    let mut game = pong(&mut guard);
    game.act(Action(1));
    game.act(Action(1));
    let record = game.encode(files["pong.bin"].clone()).unwrap();
    ALE::from(game).close(&mut guard);

    files.remove("pong.bin");
    let present = files.contains_key(&record.rom_path);
    assert_eq!(record.rom_to_write(present), Some(&rom));
    if let Some(bytes) = record.rom_to_write(present) {
        files.insert(record.rom_path.clone(), bytes.clone());
    }
    assert_eq!(files["pong.bin"], rom);

    let back = Game::<Pong>::decode(record, &mut guard).unwrap();
    assert_eq!(back.frame_number(), 2);
    assert_eq!(back.rom_path(), "pong.bin");
}

#[test]
fn a_rom_file_that_is_there_is_left_as_it_is() {
    let record = GameRecord {
        rom_path: String::from("pong.bin"),
        rom_bytes: vec![1, 2, 3],
        system_state: vec![0; 12],
    };
    assert_eq!(record.rom_to_write(true), None);
    assert_eq!(record.rom_to_write(false), Some(&vec![1, 2, 3]));
}

#[test]
fn a_stored_game_with_an_empty_rom_comes_back_too() {
    let record = GameRecord {
        rom_path: String::from("empty.bin"),
        rom_bytes: vec![],
        system_state: vec![4, 0, 0, 0, 4, 0, 0, 0, 2, 0, 0, 0],
    };
    assert_eq!(record.rom_to_write(false), Some(&vec![]));
    let mut guard = InstanceGuard::new();
    let game = Game::<Sim<2, 2, 0, 18, 0>>::decode(record, &mut guard).unwrap();
    assert_eq!(game.frame_number(), 4);
    assert_eq!(game.lives(), 2);
    assert_eq!(game.rom_path(), "empty.bin");
    assert!(guard.held());
}
