//! The mood model of the conversational plugin: three signed indicators
//! (pleasure, arousal, dominance) pick one of eight prompt patches, and the
//! system prompt is assembled around the chosen patch.

use vstd::prelude::*;

verus! {

/// The indicators of the current mood, each nominally in -100..=100.
#[derive(Debug, Clone, Copy, PartialEq, Eq, Structural)]
pub struct AiMoodState {
    pub pleasure: i8,
    pub arousal: i8,
    pub dominance: i8,
}

/// The eight moods a prompt patch is written for.
#[derive(Debug, Clone, Copy, PartialEq, Eq, Structural)]
pub enum Mood {
    Neutral,
    Depressed,
    Bored,
    Happy,
    Excited,
    Shy,
    Angry,
    Arrogant,
}

/// The mood that the indicators of `s` call for, first rule first.
pub open spec fn mood_of(s: AiMoodState) -> Mood {
    if s.pleasure < -50 && s.arousal > 30 {
        Mood::Angry
    } else if s.pleasure > 40 {
        if s.dominance < -30 {
            Mood::Shy
        } else if s.arousal > 50 {
            Mood::Excited
        } else {
            Mood::Happy
        }
    } else if s.pleasure < -30 {
        if s.arousal < -20 {
            Mood::Depressed
        } else {
            Mood::Arrogant
        }
    } else if s.arousal < -50 {
        Mood::Bored
    } else {
        Mood::Neutral
    }
}

/// Reads the mood the indicators call for.
pub fn select_mood(state: AiMoodState) -> (r: Mood)
    ensures
        r == mood_of(state),
{
    if state.pleasure < -50 && state.arousal > 30 {
        return Mood::Angry;
    }
    if state.pleasure > 40 {
        if state.dominance < -30 {
            return Mood::Shy;
        }
        if state.arousal > 50 {
            return Mood::Excited;
        }
        return Mood::Happy;
    }
    if state.pleasure < -30 {
        if state.arousal < -20 {
            return Mood::Depressed;
        }
        return Mood::Arrogant;
    }
    if state.arousal < -50 {
        return Mood::Bored;
    }
    Mood::Neutral
}

/// One prompt patch per mood.
#[derive(Debug, Clone)]
pub struct MoodPatChes {
    pub neutral: String,
    pub depressed: String,
    pub bored: String,
    pub happy: String,
    pub excited: String,
    pub shy: String,
    pub angry: String,
    pub arrogant: String,
}

impl MoodPatChes {
    pub open spec fn patch_for(&self, m: Mood) -> String {
        match m {
            Mood::Neutral => self.neutral,
            Mood::Depressed => self.depressed,
            Mood::Bored => self.bored,
            Mood::Happy => self.happy,
            Mood::Excited => self.excited,
            Mood::Shy => self.shy,
            Mood::Angry => self.angry,
            Mood::Arrogant => self.arrogant,
        }
    }

    /// The patch for the mood that `state` calls for.
    pub fn select_patch(&self, state: AiMoodState) -> (r: &String)
        ensures
            *r == self.patch_for(mood_of(state)),
    {
        match select_mood(state) {
            Mood::Neutral => &self.neutral,
            Mood::Depressed => &self.depressed,
            Mood::Bored => &self.bored,
            Mood::Happy => &self.happy,
            Mood::Excited => &self.excited,
            Mood::Shy => &self.shy,
            Mood::Angry => &self.angry,
            Mood::Arrogant => &self.arrogant,
        }
    }
}

/// The fixed parts of the system prompt, and the patches for each mood.
#[derive(Debug, Clone)]
pub struct Personality {
    pub core: String,
    pub context_scenario: String,
    pub format_rules: String,
    pub mood_patches: MoodPatChes,
}

impl Personality {
    /// The system prompt for `mood_state`: the core, the scenario, the
    /// format rules and the mood's patch, one after another on their own lines.
    pub fn get_prompt(&self, mood_state: AiMoodState) -> (r: String)
        ensures
            r@ == self.core@ + "\n"@ + self.context_scenario@ + "\n"@ + self.format_rules@ + "\n"@
                + self.mood_patches.patch_for(mood_of(mood_state))@,
    {
        let mut s = self.core.clone();
        s.append("\n");
        s.append(self.context_scenario.as_str());
        s.append("\n");
        s.append(self.format_rules.as_str());
        s.append("\n");
        s.append(self.mood_patches.select_patch(mood_state).as_str());
        s
    }
}

} // verus!
