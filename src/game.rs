use vstd::prelude::*;
use crate::actor::{Actor, Direction};
use crate::food::{
    after_eating, eat, food_grid, grid, score_after_eating, Food, FOOD_COUNT,
};
use crate::geometry::{boxes_overlap, in_field, overlaps, Pos, HALF_WIDTH, MAX_FRAME_US};
use crate::score::{decimal, decimal_text, score_caption, score_caption_text};

verus! {

/// Half the side of the squares by which the enemy catches the player (70 px).
pub const CATCH_HALF: i64 = 35_000_000;

/// The two modes of the game.
#[derive(Clone, Copy, Debug, PartialEq, Eq, Structural)]
pub enum GameState {
    Playing,
    GameOver,
}

/// Everything that exists while the game is being played.
pub struct Scene {
    pub player: Actor,
    pub enemy: Actor,
    pub foods: Vec<Food>,
    /// The score as displayed on screen.
    pub score_text: String,
    /// The score that `score_text` was last written for.
    pub shown_score: u64,
}

pub struct SceneView {
    pub player: Actor,
    pub enemy: Actor,
    pub foods: Seq<Food>,
    pub score_text: Seq<char>,
    pub shown_score: u64,
}

impl View for Scene {
    type V = SceneView;

    open spec fn view(&self) -> SceneView {
        SceneView {
            player: self.player,
            enemy: self.enemy,
            foods: self.foods@,
            score_text: self.score_text@,
            shown_score: self.shown_score,
        }
    }
}

/// The whole game: its mode, a mode change requested for the next frame,
/// the score, the scene while playing and the caption once the game is over.
pub struct Game {
    pub state: GameState,
    pub next_state: Option<GameState>,
    pub score: u64,
    pub scene: Option<Scene>,
    pub caption: Option<String>,
}

pub struct GameView {
    pub state: GameState,
    pub next_state: Option<GameState>,
    pub score: u64,
    pub scene: Option<SceneView>,
    pub caption: Option<Seq<char>>,
}

impl View for Game {
    type V = GameView;

    open spec fn view(&self) -> GameView {
        GameView {
            state: self.state,
            next_state: self.next_state,
            score: self.score,
            scene: match self.scene {
                Some(s) => Some(s@),
                None => None,
            },
            caption: match self.caption {
                Some(c) => Some(c@),
                None => None,
            },
        }
    }
}

impl SceneView {
    pub open spec fn wf(self) -> bool {
        &&& self.player.wf()
        &&& self.enemy.wf()
        &&& self.foods.len() == FOOD_COUNT
        &&& self.score_text == decimal(self.shown_score as nat)
    }

    /// The scene after the gameplay of one frame, with the score it ends on
    /// and whether the enemy caught the player: the player moves, turns on
    /// the key, eats; the score display catches up; both actors animate;
    /// the enemy gives chase; then the catch is tested.
    pub open spec fn played(self, score: u64, dt_us: u64, pressed: bool) -> (SceneView, u64, bool) {
        let moved = self.player.moved(dt_us);
        let turned = if pressed { moved.turned() } else { moved };
        let foods = after_eating(turned.pos, self.foods);
        let score = score_after_eating(turned.pos, self.foods, score as nat) as u64;
        let changed = score != self.shown_score;
        let player = Actor { frames: turned.frames.ticked(dt_us), ..turned };
        let enemy = Actor { frames: self.enemy.frames.ticked(dt_us), ..self.enemy };
        let enemy = enemy.pursued(player.pos.x as int, dt_us);
        let caught = boxes_overlap(player.pos, CATCH_HALF as int, enemy.pos, CATCH_HALF as int);
        (
            SceneView {
                player,
                enemy,
                foods,
                score_text: if changed { decimal(score as nat) } else { self.score_text },
                shown_score: score,
            },
            score,
            caught,
        )
    }
}

/// The scene as it is spawned: the player in the middle, the enemy at the
/// left edge, all food shown and a score of zero on display.
pub open spec fn initial_scene() -> SceneView {
    SceneView {
        player: Actor::spawned_at(0),
        enemy: Actor::spawned_at(-HALF_WIDTH),
        foods: grid(),
        score_text: decimal(0),
        shown_score: 0,
    }
}

/// The game right after entering `state` with a score of `score`: playing
/// starts over from a fresh scene with a score of zero; a game that is over
/// holds only its caption.
pub open spec fn entered(state: GameState, score: u64) -> GameView {
    match state {
        GameState::Playing => GameView {
            state: GameState::Playing,
            next_state: None,
            score: 0,
            scene: Some(initial_scene()),
            caption: None,
        },
        GameState::GameOver => GameView {
            state: GameState::GameOver,
            next_state: None,
            score,
            scene: None,
            caption: Some(score_caption(score as nat)),
        },
    }
}

impl GameView {
    pub open spec fn wf(self) -> bool {
        &&& (self.state == GameState::Playing) == self.scene.is_some()
        &&& (self.state == GameState::GameOver) == self.caption.is_some()
        &&& self.scene.is_some() ==> self.scene.unwrap().wf()
    }

    /// The requested mode change, if any, carried out.
    pub open spec fn transitioned(self) -> GameView {
        match self.next_state {
            Some(state) => entered(state, self.score),
            None => self,
        }
    }

    /// The systems of the current mode run once: gameplay while playing,
    /// where a catch asks for the end of the game; once over, the key asks
    /// to play again.
    pub open spec fn played(self, dt_us: u64, pressed: bool) -> GameView {
        match self.state {
            GameState::Playing => {
                let (scene, score, caught) = self.scene.unwrap().played(self.score, dt_us, pressed);
                GameView {
                    next_state: if caught { Some(GameState::GameOver) } else { self.next_state },
                    score,
                    scene: Some(scene),
                    ..self
                }
            },
            GameState::GameOver => GameView {
                next_state: if pressed { Some(GameState::Playing) } else { self.next_state },
                ..self
            },
        }
    }

    /// One frame: the mode change requested during the last frame, then the
    /// systems of the mode now current.
    pub open spec fn updated(self, dt_us: u64, pressed: bool) -> GameView {
        self.transitioned().played(dt_us, pressed)
    }
}

/// In every frame of play the enemy ends inside the field, faces left
/// exactly when the player, where it stands that frame, is to the enemy's
/// left, and is drawn mirrored exactly when it faces left.
pub proof fn lemma_enemy_faces_player(g: GameView, dt_us: u64, pressed: bool)
    requires
        g.wf(),
        g.state == GameState::Playing,
    ensures
        in_field(g.played(dt_us, pressed).scene.unwrap().enemy.pos.x as int),
        (g.played(dt_us, pressed).scene.unwrap().enemy.facing == Direction::Left)
            == (g.played(dt_us, pressed).scene.unwrap().player.pos.x < g.scene.unwrap().enemy.pos.x),
        g.played(dt_us, pressed).scene.unwrap().enemy.flip_x
            == (g.played(dt_us, pressed).scene.unwrap().enemy.facing == Direction::Left),
{
}

/// Loss: a frame of play that ends with the enemy on the player asks for
/// the end of the game. The next frame enters the game-over mode once: the
/// scene is gone, the score is kept and shown in the caption, and from then
/// on a frame without the key changes nothing, so no gameplay runs.
pub proof fn lemma_catch_ends_game(g: GameView, dt_us: u64, pressed: bool, later_us: u64, last_us: u64)
    requires
        g.wf(),
        g.state == GameState::Playing,
        g.next_state is None,
        g.scene.unwrap().played(g.score, dt_us, pressed).2,
    ensures
        g.played(dt_us, pressed).next_state == Some(GameState::GameOver),
        g.played(dt_us, pressed).updated(later_us, false).state == GameState::GameOver,
        g.played(dt_us, pressed).updated(later_us, false).scene is None,
        g.played(dt_us, pressed).updated(later_us, false).next_state is None,
        g.played(dt_us, pressed).updated(later_us, false).score == g.played(dt_us, pressed).score,
        g.played(dt_us, pressed).updated(later_us, false).caption
            == Some(score_caption(g.played(dt_us, pressed).score as nat)),
        g.played(dt_us, pressed).updated(later_us, false).updated(last_us, false)
            == g.played(dt_us, pressed).updated(later_us, false),
{
}

/// Retry: in a finished game the key asks to play again, and the next
/// frame starts over from a score of zero and exactly one fresh scene,
/// whatever the rounds before left behind.
pub proof fn lemma_retry_starts_over(g: GameView, dt_us: u64, later_us: u64, pressed: bool)
    requires
        g.wf(),
        g.state == GameState::GameOver,
        g.next_state is None,
    ensures
        g.played(dt_us, true).next_state == Some(GameState::Playing),
        g.played(dt_us, true).transitioned() == entered(GameState::Playing, 0),
        g.played(dt_us, true).transitioned().score == 0,
        g.played(dt_us, true).transitioned().scene == Some(initial_scene()),
        g.played(dt_us, true).updated(later_us, pressed)
            == entered(GameState::Playing, 0).played(later_us, pressed),
{
}

/// Whether the enemy at `enemy` has caught the player at `player`.
pub fn catches(enemy: Pos, player: Pos) -> (r: bool)
    ensures
        r == boxes_overlap(player, CATCH_HALF as int, enemy, CATCH_HALF as int),
{
    overlaps(player, CATCH_HALF, enemy, CATCH_HALF)
}

impl Scene {
    /// Spawns the scene of a new round.
    pub fn spawn() -> (r: Scene)
        ensures
            r@ == initial_scene(),
            r@.wf(),
    {
        let foods = food_grid();
        assert(foods@.len() == FOOD_COUNT);
        Scene {
            player: Actor::spawn(0),
            enemy: Actor::spawn(-HALF_WIDTH),
            foods,
            score_text: decimal_text(0),
            shown_score: 0,
        }
    }

    /// Runs the gameplay of one frame on the scene and the score; returns
    /// whether the enemy caught the player.
    pub fn play_frame(&mut self, score: &mut u64, dt_us: u64, pressed: bool) -> (caught: bool)
        requires
            old(self)@.wf(),
            *old(score) <= u64::MAX - FOOD_COUNT,
            dt_us <= MAX_FRAME_US,
        ensures
            (final(self)@, *final(score), caught) == old(self)@.played(*old(score), dt_us, pressed),
            final(self)@.wf(),
    {
        self.player.advance(dt_us);
        if pressed {
            self.player.turn_around();
        }
        eat(self.player.pos, &mut self.foods, score);
        self.refresh_score_text(*score);
        self.player.frames.tick(dt_us);
        self.enemy.frames.tick(dt_us);
        self.enemy.pursue(self.player.pos, dt_us);
        catches(self.enemy.pos, self.player.pos)
    }

    /// Rewrites the displayed score, only when it differs from the score
    /// last written.
    pub fn refresh_score_text(&mut self, score: u64)
        requires
            old(self)@.wf(),
        ensures
            final(self)@ == (SceneView {
                score_text: if score != old(self).shown_score { decimal(score as nat) } else { old(self)@.score_text },
                shown_score: score,
                ..old(self)@
            }),
            final(self)@.score_text == decimal(score as nat),
            final(self)@.wf(),
    {
        if score != self.shown_score {
            self.score_text = decimal_text(score);
            self.shown_score = score;
        }
    }
}

impl Game {
    /// A game that has just started: playing, with a fresh scene and no score.
    pub fn new() -> (r: Game)
        ensures
            r@ == entered(GameState::Playing, 0),
            r@.wf(),
    {
        Game {
            state: GameState::Playing,
            next_state: None,
            score: 0,
            scene: Some(Scene::spawn()),
            caption: None,
        }
    }

    /// Carries out the mode change requested during the last frame: all of
    /// the old mode's objects go, and the new mode's are spawned.
    pub fn apply_transition(&mut self)
        requires
            old(self)@.wf(),
        ensures
            final(self)@ == old(self)@.transitioned(),
            final(self)@.wf(),
    {
        match self.next_state {
            Some(state) => {
                self.next_state = None;
                self.scene = None;
                self.caption = None;
                match state {
                    GameState::Playing => {
                        self.score = 0;
                        self.scene = Some(Scene::spawn());
                    },
                    GameState::GameOver => {
                        self.caption = Some(score_caption_text(self.score));
                    },
                }
                self.state = state;
            },
            None => {},
        }
    }

    /// Runs the systems of the current mode for one frame of `dt_us`, with
    /// `pressed` telling whether the key went down this frame.
    pub fn run_systems(&mut self, dt_us: u64, pressed: bool)
        requires
            old(self)@.wf(),
            old(self).score <= u64::MAX - FOOD_COUNT,
            dt_us <= MAX_FRAME_US,
        ensures
            final(self)@ == old(self)@.played(dt_us, pressed),
            final(self)@.wf(),
    {
        match self.state {
            GameState::Playing => {
                let caught = match &mut self.scene {
                    Some(scene) => scene.play_frame(&mut self.score, dt_us, pressed),
                    None => false,
                };
                if caught {
                    self.next_state = Some(GameState::GameOver);
                }
            },
            GameState::GameOver => {
                if pressed {
                    self.next_state = Some(GameState::Playing);
                }
            },
        }
    }

    /// One frame of the game.
    pub fn update(&mut self, dt_us: u64, pressed: bool)
        requires
            old(self)@.wf(),
            old(self).score <= u64::MAX - FOOD_COUNT,
            dt_us <= MAX_FRAME_US,
        ensures
            final(self)@ == old(self)@.updated(dt_us, pressed),
            final(self)@.wf(),
    {
        self.apply_transition();
        self.run_systems(dt_us, pressed);
    }
}

} // verus!
