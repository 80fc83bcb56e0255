//! Plugin events: the data handed to plugins, and whether a plugin
//! cancelled the action. `P` stands for the server's player handle and `W`
//! for its world handle.

use vstd::prelude::*;
use crate::block::behaviour::Facing;
use crate::entity::tnt::Vec3Bits;
use crate::geometry::Vector3;

verus! {

/// An event that occurs when a player opens an inventory.
pub struct InventoryOpenEvent<P> {
    /// The player.
    pub player: P,
    /// Whether a plugin cancelled the action.
    pub cancelled: bool,
}

impl<P> InventoryOpenEvent<P> {
    pub fn new(player: P) -> (e: Self)
        ensures
            e.player == player,
            !e.cancelled,
    {
        InventoryOpenEvent { player, cancelled: false }
    }

    /// Whether a plugin cancelled the action.
    pub fn cancelled(&self) -> (c: bool)
        ensures
            c == self.cancelled,
    {
        self.cancelled
    }

    /// Cancels the action, or lets it go ahead again.
    pub fn set_cancelled(&mut self, cancelled: bool)
        ensures
            final(self).cancelled == cancelled,
            final(self).player == old(self).player,
    {
        self.cancelled = cancelled;
    }
}

/// An event that occurs when an item is prepared in an anvil.
pub struct PrepareAnvilEvent<P> {
    /// The player.
    pub player: P,
    /// The name prepared in the anvil input text field.
    pub rename_text: String,
    /// The repair cost in experience levels.
    pub repair_cost: u32,
}

impl<P> PrepareAnvilEvent<P> {
    pub fn new(player: P, rename_text: String, repair_cost: u32) -> (e: Self)
        ensures
            e.player == player,
            e.rename_text == rename_text,
            e.repair_cost == repair_cost,
    {
        PrepareAnvilEvent { player, rename_text, repair_cost }
    }
}

/// An event that occurs when items are placed into a grindstone.
pub struct PrepareGrindstoneEvent<P> {
    /// The player.
    pub player: P,
    /// The resulting item ID prepared in the output slot.
    pub result_item: Option<String>,
}

impl<P> PrepareGrindstoneEvent<P> {
    pub fn new(player: P, result_item: Option<String>) -> (e: Self)
        ensures
            e.player == player,
            e.result_item == result_item,
    {
        PrepareGrindstoneEvent { player, result_item }
    }
}

/// An event that occurs when items are placed into a smithing table.
pub struct PrepareSmithingEvent<P> {
    /// The player.
    pub player: P,
    /// The resulting item ID prepared in the output slot.
    pub result_item: Option<String>,
}

impl<P> PrepareSmithingEvent<P> {
    pub fn new(player: P, result_item: Option<String>) -> (e: Self)
        ensures
            e.player == player,
            e.result_item == result_item,
    {
        PrepareSmithingEvent { player, result_item }
    }
}

/// An event that occurs when a player selects a trade recipe with a merchant.
pub struct TradeSelectEvent<P> {
    /// The player.
    pub player: P,
    /// The index of the selected trade slot.
    pub slot_index: u8,
    /// Whether a plugin cancelled the action.
    pub cancelled: bool,
}

impl<P> TradeSelectEvent<P> {
    pub fn new(player: P, slot_index: u8) -> (e: Self)
        ensures
            e.player == player,
            e.slot_index == slot_index,
            !e.cancelled,
    {
        TradeSelectEvent { player, slot_index, cancelled: false }
    }

    /// Whether a plugin cancelled the action.
    pub fn cancelled(&self) -> (c: bool)
        ensures
            c == self.cancelled,
    {
        self.cancelled
    }

    /// Cancels the action, or lets it go ahead again.
    pub fn set_cancelled(&mut self, cancelled: bool)
        ensures
            final(self).cancelled == cancelled,
            final(self).player == old(self).player,
            final(self).slot_index == old(self).slot_index,
    {
        self.cancelled = cancelled;
    }
}

/// An event that occurs when a player consumes an item (food, potion, etc.).
pub struct PlayerItemConsumeEvent<P> {
    /// The player.
    pub player: P,
    /// The registry name of the item being consumed.
    pub item_name: String,
    /// Whether a plugin cancelled the action.
    pub cancelled: bool,
}

impl<P> PlayerItemConsumeEvent<P> {
    pub fn new(player: P, item_name: String) -> (e: Self)
        ensures
            e.player == player,
            e.item_name == item_name,
            !e.cancelled,
    {
        PlayerItemConsumeEvent { player, item_name, cancelled: false }
    }

    /// Whether a plugin cancelled the action.
    pub fn cancelled(&self) -> (c: bool)
        ensures
            c == self.cancelled,
    {
        self.cancelled
    }

    /// Cancels the action, or lets it go ahead again.
    pub fn set_cancelled(&mut self, cancelled: bool)
        ensures
            final(self).cancelled == cancelled,
            final(self).player == old(self).player,
            final(self).item_name == old(self).item_name,
    {
        self.cancelled = cancelled;
    }
}

/// An event that occurs when server links are sent to a player.
pub struct PlayerLinksSendEvent<P> {
    /// The player.
    pub player: P,
    /// Links sent.
    pub links: Vec<String>,
    /// Whether a plugin cancelled the action.
    pub cancelled: bool,
}

impl<P> PlayerLinksSendEvent<P> {
    pub fn new(player: P, links: Vec<String>) -> (e: Self)
        ensures
            e.player == player,
            e.links == links,
            !e.cancelled,
    {
        PlayerLinksSendEvent { player, links, cancelled: false }
    }

    /// Whether a plugin cancelled the action.
    pub fn cancelled(&self) -> (c: bool)
        ensures
            c == self.cancelled,
    {
        self.cancelled
    }

    /// Cancels the action, or lets it go ahead again.
    pub fn set_cancelled(&mut self, cancelled: bool)
        ensures
            final(self).cancelled == cancelled,
            final(self).player == old(self).player,
            final(self).links == old(self).links,
    {
        self.cancelled = cancelled;
    }

    /// The player the event concerns.
    pub fn get_player(&self) -> (p: &P)
        ensures
            *p == self.player,
    {
        &self.player
    }
}

/// An event that occurs when a player discovers a recipe.
pub struct PlayerRecipeDiscoverEvent<P> {
    /// The player.
    pub player: P,
    /// Recipe ID.
    pub recipe_id: String,
    /// Whether a plugin cancelled the action.
    pub cancelled: bool,
}

impl<P> PlayerRecipeDiscoverEvent<P> {
    pub fn new(player: P, recipe_id: String) -> (e: Self)
        ensures
            e.player == player,
            e.recipe_id == recipe_id,
            !e.cancelled,
    {
        PlayerRecipeDiscoverEvent { player, recipe_id, cancelled: false }
    }

    /// Whether a plugin cancelled the action.
    pub fn cancelled(&self) -> (c: bool)
        ensures
            c == self.cancelled,
    {
        self.cancelled
    }

    /// Cancels the action, or lets it go ahead again.
    pub fn set_cancelled(&mut self, cancelled: bool)
        ensures
            final(self).cancelled == cancelled,
            final(self).player == old(self).player,
            final(self).recipe_id == old(self).recipe_id,
    {
        self.cancelled = cancelled;
    }

    /// The player the event concerns.
    pub fn get_player(&self) -> (p: &P)
        ensures
            *p == self.player,
    {
        &self.player
    }
}

/// An event that occurs when a player swaps items between main hand and offhand.
pub struct PlayerSwapHandItemsEvent<P> {
    /// The player.
    pub player: P,
    /// Whether a plugin cancelled the action.
    pub cancelled: bool,
}

impl<P> PlayerSwapHandItemsEvent<P> {
    pub fn new(player: P) -> (e: Self)
        ensures
            e.player == player,
            !e.cancelled,
    {
        PlayerSwapHandItemsEvent { player, cancelled: false }
    }

    /// Whether a plugin cancelled the action.
    pub fn cancelled(&self) -> (c: bool)
        ensures
            c == self.cancelled,
    {
        self.cancelled
    }

    /// Cancels the action, or lets it go ahead again.
    pub fn set_cancelled(&mut self, cancelled: bool)
        ensures
            final(self).cancelled == cancelled,
            final(self).player == old(self).player,
    {
        self.cancelled = cancelled;
    }
}

/// An event that occurs when a world is loaded.
pub struct WorldLoadEvent<W> {
    /// The world that was loaded.
    pub world: W,
}

impl<W> WorldLoadEvent<W> {
    pub fn new(world: W) -> (e: Self)
        ensures
            e.world == world,
    {
        WorldLoadEvent { world }
    }
}

/// An event that occurs when a world is unloaded.
pub struct WorldUnloadEvent<W> {
    /// The world being unloaded.
    pub world: W,
    /// Whether a plugin cancelled the action.
    pub cancelled: bool,
}

impl<W> WorldUnloadEvent<W> {
    pub fn new(world: W) -> (e: Self)
        ensures
            e.world == world,
            !e.cancelled,
    {
        WorldUnloadEvent { world, cancelled: false }
    }

    /// Whether a plugin cancelled the action.
    pub fn cancelled(&self) -> (c: bool)
        ensures
            c == self.cancelled,
    {
        self.cancelled
    }

    /// Cancels the action, or lets it go ahead again.
    pub fn set_cancelled(&mut self, cancelled: bool)
        ensures
            final(self).cancelled == cancelled,
            final(self).world == old(self).world,
    {
        self.cancelled = cancelled;
    }
}

/// An event that occurs when a bell is rung. `E` stands for the entity that
/// rang it.
pub struct BellRingEvent<W, E> {
    /// The bell's position.
    pub block_pos: Vector3,
    /// The bell's world.
    pub world: W,
    /// The entity that rang the bell, if any.
    pub entity: Option<E>,
    /// The face that was struck, if known.
    pub direction: Option<Facing>,
    /// Whether a plugin cancelled the action.
    pub cancelled: bool,
}

impl<W, E> BellRingEvent<W, E> {
    pub fn new(block_pos: Vector3, world: W, entity: Option<E>, direction: Option<Facing>) -> (e: Self)
        ensures
            e.block_pos == block_pos,
            e.world == world,
            e.entity == entity,
            e.direction == direction,
            !e.cancelled,
    {
        BellRingEvent { block_pos, world, entity, direction, cancelled: false }
    }

    /// Whether a plugin cancelled the action.
    pub fn cancelled(&self) -> (c: bool)
        ensures
            c == self.cancelled,
    {
        self.cancelled
    }

    /// Cancels the action, or lets it go ahead again.
    pub fn set_cancelled(&mut self, cancelled: bool)
        ensures
            final(self).cancelled == cancelled,
            final(self).block_pos == old(self).block_pos,
            final(self).world == old(self).world,
            final(self).entity == old(self).entity,
            final(self).direction == old(self).direction,
    {
        self.cancelled = cancelled;
    }
}

/// An event that occurs when a block cooks an item (a campfire, say). `I`
/// stands for an item stack.
pub struct BlockCookEvent<W, I> {
    /// The cooking block's position.
    pub block_pos: Vector3,
    /// The cooking block's world.
    pub world: W,
    /// The item put in.
    pub source: I,
    /// The item that comes out.
    pub result: I,
    /// Whether a plugin cancelled the action.
    pub cancelled: bool,
}

impl<W, I> BlockCookEvent<W, I> {
    pub fn new(block_pos: Vector3, world: W, source: I, result: I) -> (e: Self)
        ensures
            e.block_pos == block_pos,
            e.world == world,
            e.source == source,
            e.result == result,
            !e.cancelled,
    {
        BlockCookEvent { block_pos, world, source, result, cancelled: false }
    }

    /// Whether a plugin cancelled the action.
    pub fn cancelled(&self) -> (c: bool)
        ensures
            c == self.cancelled,
    {
        self.cancelled
    }

    /// Cancels the action, or lets it go ahead again.
    pub fn set_cancelled(&mut self, cancelled: bool)
        ensures
            final(self).cancelled == cancelled,
            final(self).block_pos == old(self).block_pos,
            final(self).world == old(self).world,
            final(self).source == old(self).source,
            final(self).result == old(self).result,
    {
        self.cancelled = cancelled;
    }
}

/// An event that occurs when a vault displays an item.
pub struct VaultDisplayItemEvent<W, I> {
    /// The vault's position.
    pub block_pos: Vector3,
    /// The vault's world.
    pub world: W,
    /// The item shown.
    pub item: I,
    /// Whether a plugin cancelled the action.
    pub cancelled: bool,
}

impl<W, I> VaultDisplayItemEvent<W, I> {
    pub fn new(block_pos: Vector3, world: W, item: I) -> (e: Self)
        ensures
            e.block_pos == block_pos,
            e.world == world,
            e.item == item,
            !e.cancelled,
    {
        VaultDisplayItemEvent { block_pos, world, item, cancelled: false }
    }

    /// Whether a plugin cancelled the action.
    pub fn cancelled(&self) -> (c: bool)
        ensures
            c == self.cancelled,
    {
        self.cancelled
    }

    /// Cancels the action, or lets it go ahead again.
    pub fn set_cancelled(&mut self, cancelled: bool)
        ensures
            final(self).cancelled == cancelled,
            final(self).block_pos == old(self).block_pos,
            final(self).world == old(self).world,
            final(self).item == old(self).item,
    {
        self.cancelled = cancelled;
    }
}

/// An event that occurs when a player's spawn position is determined.
pub struct PlayerSpawnLocationEvent<P> {
    /// The player.
    pub player: P,
    /// The spawn position, its coordinates held as `f64` bit patterns.
    pub spawn_pos: Vec3Bits,
    /// Whether a plugin cancelled the action.
    pub cancelled: bool,
}

impl<P> PlayerSpawnLocationEvent<P> {
    pub fn new(player: P, spawn_pos: Vec3Bits) -> (e: Self)
        ensures
            e.player == player,
            e.spawn_pos == spawn_pos,
            !e.cancelled,
    {
        PlayerSpawnLocationEvent { player, spawn_pos, cancelled: false }
    }

    pub fn get_player(&self) -> (p: &P)
        ensures
            *p == self.player,
    {
        &self.player
    }

    /// Whether a plugin cancelled the action.
    pub fn cancelled(&self) -> (c: bool)
        ensures
            c == self.cancelled,
    {
        self.cancelled
    }

    /// Cancels the action, or lets it go ahead again.
    pub fn set_cancelled(&mut self, cancelled: bool)
        ensures
            final(self).cancelled == cancelled,
            final(self).player == old(self).player,
            final(self).spawn_pos == old(self).spawn_pos,
    {
        self.cancelled = cancelled;
    }
}

} // verus!
