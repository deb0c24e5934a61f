use vstd::prelude::*;

verus! {

/// Marks what belongs to the home menu.
#[derive(Clone, Copy, Debug)]
pub struct HomeMenuObject;

/// Index of the menu entry under the cursor.
#[derive(Clone, Copy, Debug)]
pub struct ActiveOption(pub usize);

/// Index of one menu entry.
#[derive(Clone, Copy, Debug)]
pub struct HomeMenuOptionItem(pub usize);

/// What a menu entry does.
#[derive(Clone, Copy, Debug, PartialEq, Eq, Structural)]
pub enum HomeMenuOption {
    Start,
    Exit,
}

/// Where the cursor stands after the keys of one frame, in a menu of
/// `item_num` entries: one entry further for the down key, one entry back
/// for the up key where the down key is not pressed too, and round the end
/// of the list either way.
pub open spec fn cursor_after(active: usize, down: bool, up: bool, item_num: usize) -> int {
    let delta: int = if down {
        1
    } else if up {
        item_num - 1
    } else {
        0
    };
    (active + delta) % (item_num as int)
}

impl ActiveOption {
    /// Moves the cursor by the keys of one frame.
    pub fn move_cursor(&mut self, down: bool, up: bool, item_num: usize)
        requires
            item_num > 0,
        ensures
            final(self).0 == cursor_after(old(self).0, down, up, item_num),
            final(self).0 < item_num,
    {
        let delta: u128 = if down {
            1
        } else if up {
            (item_num - 1) as u128
        } else {
            0
        };
        let moved: u128 = (self.0 as u128 + delta) % (item_num as u128);
        self.0 = moved as usize;
    }

    /// Whether the cursor stands on `item`.
    pub fn is_on(&self, item: &HomeMenuOptionItem) -> (r: bool)
        ensures
            r == (self.0 == item.0),
    {
        self.0 == item.0
    }
}

} // verus!
