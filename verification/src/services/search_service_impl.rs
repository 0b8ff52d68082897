//! The search service: route an inbound (collection, language, free text)
//! request to the right registry, after normalizing the text into tokens.
//! It also owns the four registries and lets the scheduler's driver run a
//! collection's rebuild pass against them.

use vstd::prelude::*;

use crate::errors::ErrorKind;
use crate::models::entity::Entity;
use crate::models::language::Language;
use crate::services::doc_details_retriever::DocDetailsRetriever;
use crate::services::index_processor::{search_ok, IndexProcessor};
use crate::services::index_task::IndexTask;
use crate::text::{ascii_lower, lower_seq, split_tokens, token_views, tokens_of};

verus! {

/// One registry per collection, wired in explicitly at startup.
pub struct SearchServiceImpl {
    movie: IndexProcessor,
    tv: IndexProcessor,
    recipe: IndexProcessor,
    game: IndexProcessor,
}

impl SearchServiceImpl {
    /// The documents currently served for one collection and language.
    pub closed spec fn corpus(&self, entity: Entity, lang: Language) -> Seq<(u64, Seq<char>)> {
        match entity {
            Entity::Movie => self.movie.lang_docs(lang),
            Entity::Tv => self.tv.lang_docs(lang),
            Entity::Recipe => self.recipe.lang_docs(lang),
            Entity::Game => self.game.lang_docs(lang),
        }
    }

    /// The slot for one collection and language has no buffered writes.
    pub closed spec fn clean(&self, entity: Entity, lang: Language) -> bool {
        match entity {
            Entity::Movie => self.movie.lang_clean(lang),
            Entity::Tv => self.tv.lang_clean(lang),
            Entity::Recipe => self.recipe.lang_clean(lang),
            Entity::Game => self.game.lang_clean(lang),
        }
    }

    /// Wire the four collection registries into one service.
    pub fn new(
        movie: IndexProcessor,
        tv: IndexProcessor,
        recipe: IndexProcessor,
        game: IndexProcessor,
    ) -> (s: SearchServiceImpl)
        ensures
            forall|l: Language| #[trigger] s.corpus(Entity::Movie, l) == movie.lang_docs(l),
            forall|l: Language| #[trigger] s.corpus(Entity::Tv, l) == tv.lang_docs(l),
            forall|l: Language| #[trigger] s.corpus(Entity::Recipe, l) == recipe.lang_docs(l),
            forall|l: Language| #[trigger] s.corpus(Entity::Game, l) == game.lang_docs(l),
    {
        SearchServiceImpl { movie, tv, recipe, game }
    }

    /// Normalize the keywords (lowercase, trim, split on whitespace) and
    /// search the right registry. Input that normalizes to zero tokens is
    /// rejected as `EmptyQuery` and never reaches an index.
    pub fn search(&self, keywords: &str, lang: Language, entity: Entity) -> (r: Result<
        Vec<u64>,
        ErrorKind,
    >)
        ensures
            tokens_of(lower_seq(keywords@)).len() == 0 <==> r == Err::<Vec<u64>, ErrorKind>(
                ErrorKind::EmptyQuery,
            ),
            r matches Ok(ids) ==> search_ok(
                tokens_of(lower_seq(keywords@)),
                self.corpus(entity, lang),
                ids@,
            ),
            tokens_of(lower_seq(keywords@)).len() >= 1 ==> (r matches Err(e) ==> e
                == ErrorKind::IndexQueryFailure),
    {
        let lowered = ascii_lower(keywords);
        let tokens = split_tokens(lowered.as_str());
        if tokens.len() == 0 {
            return Err(ErrorKind::EmptyQuery);
        }
        let registry = match entity {
            Entity::Movie => &self.movie,
            Entity::Tv => &self.tv,
            Entity::Recipe => &self.recipe,
            Entity::Game => &self.game,
        };
        registry.search(lang, &tokens)
    }

    /// Run one collection's full rebuild pass (every language) against its
    /// registry. Other collections are untouched; a failing language keeps
    /// its previous index.
    pub fn reindex_collection<T: DocDetailsRetriever>(
        &mut self,
        entity: Entity,
        task: &IndexTask<T>,
    )
        ensures
            forall|l: Language|
                #[trigger] final(self).clean(entity, l) || final(self).corpus(entity, l) == old(
                    self,
                ).corpus(entity, l),
            forall|e: Entity, l: Language|
                e != entity ==> #[trigger] final(self).corpus(e, l) == old(self).corpus(e, l)
                    && final(self).clean(e, l) == old(self).clean(e, l),
    {
        match entity {
            Entity::Movie => task.start(&mut self.movie),
            Entity::Tv => task.start(&mut self.tv),
            Entity::Recipe => task.start(&mut self.recipe),
            Entity::Game => task.start(&mut self.game),
        }
    }
}

} // verus!
